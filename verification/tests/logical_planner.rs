use std::rc::Rc;

use query_planner::binder::agg_call::bind_aggregate;
use query_planner::logical_planner::select::count_agg_calls;
use query_planner::logical_planner::PlanChildren;
use query_planner::binder::{
    AggKind, BinaryOperator, BoundAggCall, BoundAlias, BoundBinaryOp, BoundColumnRef, BoundCopy,
    BoundCreateTable, BoundDelete, BoundDrop, BoundExpr, BoundInputRef, BoundInsert,
    BoundJoinConstraint, BoundJoinOperator, BoundOrderBy, BoundSelect, BoundStatement,
    BoundTableRef, BoundedSingleJoinTableRef, CopyTarget, FileFormat, Object,
};
use query_planner::catalog::{ColumnCatalog, ColumnDesc, ColumnRefId, TableRefId};
use query_planner::logical_planner::{
    AggExtractor, LogicalAggregate, LogicalCopyFromFile, LogicalCopyToFile, LogicalCreateTable,
    LogicalDelete, LogicalDrop, LogicalDummy, LogicalExplain, LogicalFilter, LogicalGet,
    LogicalInsert, LogicalJoin, LogicalLimit, LogicalOrder, LogicalPlan, LogicalPlanError,
    LogicalPlanRef, LogicalPlanTrait, LogicalPlaner, LogicalProjection, LogicalValues,
};
use query_planner::types::{ConvertError, DataType, DataTypeKind, DataValue};

fn int_type() -> DataType {
    DataTypeKind::Int(None).not_null()
}

fn desc(name: &str) -> ColumnDesc {
    int_type().to_column(name.to_string())
}

fn column(column: u32, name: &str) -> BoundExpr {
    BoundExpr::ColumnRef(BoundColumnRef {
        column_ref_id: ColumnRefId::new(0, 0, 0, column),
        is_primary_key: false,
        desc: desc(name),
    })
}

fn key_column(column: u32, name: &str) -> BoundExpr {
    BoundExpr::ColumnRef(BoundColumnRef {
        column_ref_id: ColumnRefId::new(0, 0, 0, column),
        is_primary_key: true,
        desc: int_type().to_column_primary_key(name.to_string()),
    })
}

fn input_ref(index: usize) -> BoundExpr {
    BoundExpr::InputRef(BoundInputRef { index, return_type: int_type() })
}

fn binary(op: BinaryOperator, left: BoundExpr, right: BoundExpr) -> BoundExpr {
    BoundExpr::BinaryOp(BoundBinaryOp {
        op,
        left_expr: Box::new(left),
        right_expr: Box::new(right),
        return_type: Some(int_type()),
    })
}

fn agg(kind: AggKind, arg: BoundExpr) -> BoundAggCall {
    BoundAggCall { kind, args: vec![arg], return_type: int_type() }
}

fn table(table: u32, names: &[&str]) -> BoundTableRef {
    BoundTableRef::BaseTableRef {
        ref_id: TableRefId::new(0, 0, table),
        table_name: format!("t{}", table),
        column_ids: (0..names.len() as u32).collect(),
        column_descs: names.iter().map(|n| desc(n)).collect(),
    }
}

fn get(table: u32, names: &[&str], with_row_handler: bool, is_sorted: bool) -> LogicalPlanRef {
    Rc::new(LogicalPlan::LogicalGet(LogicalGet {
        table_ref_id: TableRefId::new(0, 0, table),
        column_ids: (0..names.len() as u32).collect(),
        column_descs: names.iter().map(|n| desc(n)).collect(),
        with_row_handler,
        is_sorted,
    }))
}

fn select() -> BoundSelect {
    BoundSelect {
        select_list: vec![],
        from_table: vec![],
        where_clause: None,
        select_distinct: false,
        group_by: vec![],
        orderby: vec![],
        limit: None,
        offset: None,
    }
}

fn csv() -> FileFormat {
    FileFormat::Csv { delimiter: ',', quote: '"', escape: None, header: false }
}

fn on(expr: BoundExpr) -> BoundJoinOperator {
    BoundJoinOperator::Inner(BoundJoinConstraint::On(expr))
}

#[test]
fn select_without_from_is_a_projection_over_the_dummy() {
    let stmt = BoundSelect {
        select_list: vec![BoundExpr::Constant(DataValue::Int32(1))],
        ..select()
    };
    let plan = LogicalPlaner.plan_select(Box::new(stmt)).unwrap();
    let expected: LogicalPlanRef = Rc::new(LogicalPlan::LogicalProjection(LogicalProjection {
        project_expressions: vec![BoundExpr::Constant(DataValue::Int32(1))],
        child: Rc::new(LogicalPlan::LogicalDummy(LogicalDummy)),
    }));
    assert_eq!(plan, expected);
}

#[test]
fn select_with_every_clause() {
    // select a from t where b order by a desc limit 10 offset 5
    let stmt = BoundSelect {
        select_list: vec![column(0, "a")],
        from_table: vec![table(0, &["a", "b"])],
        where_clause: Some(column(1, "b")),
        orderby: vec![BoundOrderBy { expr: column(0, "a"), descending: true }],
        limit: Some(BoundExpr::Constant(DataValue::Int32(10))),
        offset: Some(BoundExpr::Constant(DataValue::Int64(5))),
        ..select()
    };
    let plan = LogicalPlaner.plan(BoundStatement::Select(Box::new(stmt))).unwrap();
    let expected: LogicalPlanRef = Rc::new(LogicalPlan::LogicalLimit(LogicalLimit {
        offset: 5,
        limit: 10,
        child: Rc::new(LogicalPlan::LogicalOrder(LogicalOrder {
            comparators: vec![BoundOrderBy { expr: column(0, "a"), descending: true }],
            child: Rc::new(LogicalPlan::LogicalProjection(LogicalProjection {
                project_expressions: vec![column(0, "a")],
                child: Rc::new(LogicalPlan::LogicalFilter(LogicalFilter {
                    expr: column(1, "b"),
                    child: get(0, &["a", "b"], false, false),
                })),
            })),
        })),
    }));
    assert_eq!(plan, expected);
}

#[test]
fn offset_alone_caps_at_half_the_word() {
    let stmt = BoundSelect {
        select_list: vec![column(0, "a")],
        from_table: vec![table(0, &["a"])],
        offset: Some(BoundExpr::Constant(DataValue::Int32(5))),
        ..select()
    };
    let plan = LogicalPlaner.plan_select(Box::new(stmt)).unwrap();
    match &*plan {
        LogicalPlan::LogicalLimit(limit) => {
            assert_eq!(limit.offset, 5);
            assert_eq!(limit.limit, usize::MAX / 2);
        }
        other => panic!("unexpected {:?}", other),
    }
}

#[test]
fn limit_alone_starts_at_the_first_row() {
    let stmt = BoundSelect {
        select_list: vec![column(0, "a")],
        from_table: vec![table(0, &["a"])],
        limit: Some(BoundExpr::Constant(DataValue::Int32(3))),
        ..select()
    };
    let plan = LogicalPlaner.plan_select(Box::new(stmt)).unwrap();
    match &*plan {
        LogicalPlan::LogicalLimit(limit) => {
            assert_eq!(limit.offset, 0);
            assert_eq!(limit.limit, 3);
        }
        other => panic!("unexpected {:?}", other),
    }
}

#[test]
fn null_limit_and_offset_take_the_defaults() {
    let stmt = BoundSelect {
        select_list: vec![column(0, "a")],
        from_table: vec![table(0, &["a"])],
        limit: Some(BoundExpr::Constant(DataValue::Null)),
        offset: Some(BoundExpr::Constant(DataValue::Null)),
        ..select()
    };
    let plan = LogicalPlaner.plan_select(Box::new(stmt)).unwrap();
    match &*plan {
        LogicalPlan::LogicalLimit(limit) => {
            assert_eq!(limit.offset, 0);
            assert_eq!(limit.limit, usize::MAX / 2);
        }
        other => panic!("unexpected {:?}", other),
    }
}

#[test]
fn limit_must_be_a_literal() {
    let stmt = BoundSelect {
        select_list: vec![column(0, "a")],
        from_table: vec![table(0, &["a"])],
        limit: Some(column(0, "a")),
        ..select()
    };
    assert_eq!(
        LogicalPlaner.plan_select(Box::new(stmt)),
        Err(LogicalPlanError::NonConstantLimit)
    );
}

#[test]
fn offset_must_be_a_literal() {
    let stmt = BoundSelect {
        select_list: vec![column(0, "a")],
        from_table: vec![table(0, &["a"])],
        offset: Some(column(0, "a")),
        ..select()
    };
    assert_eq!(
        LogicalPlaner.plan_select(Box::new(stmt)),
        Err(LogicalPlanError::NonConstantOffset)
    );
}

#[test]
fn negative_limit_is_a_conversion_error() {
    let stmt = BoundSelect {
        select_list: vec![column(0, "a")],
        from_table: vec![table(0, &["a"])],
        limit: Some(BoundExpr::Constant(DataValue::Int32(-1))),
        ..select()
    };
    assert_eq!(
        LogicalPlaner.plan_select(Box::new(stmt)),
        Err(LogicalPlanError::Convert(ConvertError::Cast(DataValue::Int32(-1))))
    );
}

#[test]
fn distinct_is_refused_first() {
    let stmt = BoundSelect {
        select_list: vec![column(0, "a")],
        from_table: vec![table(0, &["a"])],
        select_distinct: true,
        limit: Some(column(0, "a")),
        ..select()
    };
    assert_eq!(
        LogicalPlaner.plan_select(Box::new(stmt)),
        Err(LogicalPlanError::UnsupportedDistinct)
    );
}

#[test]
fn order_by_primary_key_is_left_to_the_scan() {
    let stmt = BoundSelect {
        select_list: vec![column(1, "b")],
        from_table: vec![table(0, &["a", "b"])],
        orderby: vec![BoundOrderBy { expr: key_column(0, "a"), descending: false }],
        ..select()
    };
    let plan = LogicalPlaner.plan_select(Box::new(stmt)).unwrap();
    let expected: LogicalPlanRef = Rc::new(LogicalPlan::LogicalProjection(LogicalProjection {
        project_expressions: vec![column(1, "b")],
        child: get(0, &["a", "b"], false, true),
    }));
    assert_eq!(plan, expected);
}

#[test]
fn descending_order_by_primary_key_is_sorted_by_the_plan() {
    let stmt = BoundSelect {
        select_list: vec![column(1, "b")],
        from_table: vec![table(0, &["a", "b"])],
        orderby: vec![BoundOrderBy { expr: key_column(0, "a"), descending: true }],
        ..select()
    };
    let plan = LogicalPlaner.plan_select(Box::new(stmt)).unwrap();
    assert!(matches!(&*plan, LogicalPlan::LogicalOrder(_)));
}

#[test]
fn order_by_primary_key_over_a_join_is_sorted_by_the_plan() {
    let joined = BoundTableRef::JoinTableRef {
        relation: Box::new(table(0, &["a"])),
        join_tables: vec![BoundedSingleJoinTableRef {
            table_ref: Box::new(table(1, &["c"])),
            join_op: on(BoundExpr::Constant(DataValue::Bool(true))),
        }],
    };
    let stmt = BoundSelect {
        select_list: vec![column(0, "a")],
        from_table: vec![joined],
        orderby: vec![BoundOrderBy { expr: key_column(0, "a"), descending: false }],
        ..select()
    };
    let plan = LogicalPlaner.plan_select(Box::new(stmt)).unwrap();
    assert!(matches!(&*plan, LogicalPlan::LogicalOrder(_)));
}

#[test]
fn aggregates_leave_the_select_list() {
    // select sum(b) + a * count(a) from t group by a
    let stmt = BoundSelect {
        select_list: vec![binary(
            BinaryOperator::Plus,
            BoundExpr::AggCall(agg(AggKind::Sum, column(1, "b"))),
            binary(
                BinaryOperator::Multiply,
                column(0, "a"),
                BoundExpr::AggCall(agg(AggKind::Count, column(0, "a"))),
            ),
        )],
        from_table: vec![table(0, &["a", "b"])],
        group_by: vec![column(0, "a")],
        ..select()
    };
    let plan = LogicalPlaner.plan_select(Box::new(stmt)).unwrap();
    let expected: LogicalPlanRef = Rc::new(LogicalPlan::LogicalProjection(LogicalProjection {
        project_expressions: vec![binary(
            BinaryOperator::Plus,
            input_ref(1),
            binary(BinaryOperator::Multiply, column(0, "a"), input_ref(2)),
        )],
        child: Rc::new(LogicalPlan::LogicalAggregate(LogicalAggregate {
            agg_calls: vec![agg(AggKind::Sum, column(1, "b")), agg(AggKind::Count, column(0, "a"))],
            group_keys: vec![column(0, "a")],
            child: get(0, &["a", "b"], false, false),
        })),
    }));
    assert_eq!(plan, expected);
}

#[test]
fn extraction_runs_on_across_expressions_and_skips_aliases() {
    let mut extractor = AggExtractor::new(2);
    let mut first = binary(
        BinaryOperator::Minus,
        BoundExpr::AggCall(agg(AggKind::Max, column(0, "a"))),
        BoundExpr::AggCall(agg(AggKind::Min, column(0, "a"))),
    );
    let mut second = BoundExpr::Alias(BoundAlias {
        alias: "s".to_string(),
        expr: Box::new(BoundExpr::AggCall(agg(AggKind::Sum, column(1, "b")))),
    });
    let mut third = BoundExpr::AggCall(agg(AggKind::Count, column(1, "b")));
    extractor.visit_expr(&mut first);
    extractor.visit_expr(&mut second);
    extractor.visit_expr(&mut third);
    assert_eq!(first, binary(BinaryOperator::Minus, input_ref(2), input_ref(3)));
    assert_eq!(
        second,
        BoundExpr::Alias(BoundAlias {
            alias: "s".to_string(),
            expr: Box::new(BoundExpr::AggCall(agg(AggKind::Sum, column(1, "b")))),
        })
    );
    assert_eq!(third, input_ref(4));
    assert_eq!(
        extractor.agg_calls,
        vec![
            agg(AggKind::Max, column(0, "a")),
            agg(AggKind::Min, column(0, "a")),
            agg(AggKind::Count, column(1, "b")),
        ]
    );
    assert_eq!(extractor.index, 5);
}

#[test]
fn joins_associate_to_the_left() {
    let joined = BoundTableRef::JoinTableRef {
        relation: Box::new(table(0, &["a"])),
        join_tables: vec![
            BoundedSingleJoinTableRef {
                table_ref: Box::new(table(1, &["b"])),
                join_op: on(BoundExpr::Constant(DataValue::Int32(1))),
            },
            BoundedSingleJoinTableRef {
                table_ref: Box::new(table(2, &["c"])),
                join_op: BoundJoinOperator::LeftOuter(BoundJoinConstraint::On(
                    BoundExpr::Constant(DataValue::Int32(2)),
                )),
            },
        ],
    };
    let plan = LogicalPlaner.plan_table_ref(&joined, true, false).unwrap();
    let expected: LogicalPlanRef = Rc::new(LogicalPlan::LogicalJoin(LogicalJoin {
        left_plan: Rc::new(LogicalPlan::LogicalJoin(LogicalJoin {
            left_plan: get(0, &["a"], true, false),
            right_plan: get(1, &["b"], true, false),
            join_op: on(BoundExpr::Constant(DataValue::Int32(1))),
        })),
        right_plan: get(2, &["c"], true, false),
        join_op: BoundJoinOperator::LeftOuter(BoundJoinConstraint::On(BoundExpr::Constant(
            DataValue::Int32(2),
        ))),
    }));
    assert_eq!(plan, expected);
}

#[test]
fn create_drop_and_insert() {
    let columns = vec![ColumnCatalog::new(0, desc("a")), ColumnCatalog::new(1, desc("b"))];
    let plan = LogicalPlaner
        .plan(BoundStatement::CreateTable(BoundCreateTable {
            database_id: 1,
            schema_id: 2,
            table_name: "t".to_string(),
            columns: columns.clone(),
        }))
        .unwrap();
    let expected: LogicalPlanRef = Rc::new(LogicalPlan::LogicalCreateTable(LogicalCreateTable {
        database_id: 1,
        schema_id: 2,
        table_name: "t".to_string(),
        columns,
    }));
    assert_eq!(plan, expected);

    let object = Object::Table(TableRefId::new(0, 0, 7));
    let plan = LogicalPlaner.plan(BoundStatement::Drop(BoundDrop { object })).unwrap();
    let expected: LogicalPlanRef = Rc::new(LogicalPlan::LogicalDrop(LogicalDrop { object }));
    assert_eq!(plan, expected);

    let values = vec![vec![BoundExpr::Constant(DataValue::Int32(1))]];
    let plan = LogicalPlaner
        .plan(BoundStatement::Insert(BoundInsert {
            table_ref_id: TableRefId::new(0, 0, 7),
            column_ids: vec![0],
            column_types: vec![int_type()],
            values: values.clone(),
        }))
        .unwrap();
    let expected: LogicalPlanRef = Rc::new(LogicalPlan::LogicalInsert(LogicalInsert {
        table_ref_id: TableRefId::new(0, 0, 7),
        column_ids: vec![0],
        child: Rc::new(LogicalPlan::LogicalValues(LogicalValues {
            column_types: vec![int_type()],
            values,
        })),
    }));
    assert_eq!(plan, expected);
}

#[test]
fn copy_to_and_from_a_file() {
    let columns = vec![ColumnCatalog::new(3, desc("a")), ColumnCatalog::new(4, desc("b"))];
    let stmt = |to: bool, target: CopyTarget| BoundCopy {
        table_ref_id: TableRefId::new(0, 0, 1),
        columns: columns.clone(),
        format: csv(),
        to,
        target,
    };
    let file = || CopyTarget::File { filename: "rows.csv".to_string() };
    let plan = LogicalPlaner.plan_copy(stmt(true, file())).unwrap();
    let expected: LogicalPlanRef = Rc::new(LogicalPlan::LogicalCopyToFile(LogicalCopyToFile {
        path: "rows.csv".to_string(),
        format: csv(),
        column_types: vec![int_type(), int_type()],
        child: Rc::new(LogicalPlan::LogicalGet(LogicalGet {
            table_ref_id: TableRefId::new(0, 0, 1),
            column_ids: vec![3, 4],
            column_descs: vec![desc("a"), desc("b")],
            with_row_handler: false,
            is_sorted: false,
        })),
    }));
    assert_eq!(plan, expected);

    let plan = LogicalPlaner.plan_copy(stmt(false, file())).unwrap();
    let expected: LogicalPlanRef = Rc::new(LogicalPlan::LogicalInsert(LogicalInsert {
        table_ref_id: TableRefId::new(0, 0, 1),
        column_ids: vec![3, 4],
        child: Rc::new(LogicalPlan::LogicalCopyFromFile(LogicalCopyFromFile {
            path: "rows.csv".to_string(),
            format: csv(),
            column_types: vec![int_type(), int_type()],
        })),
    }));
    assert_eq!(plan, expected);

    assert_eq!(
        LogicalPlaner.plan_copy(stmt(true, CopyTarget::Stdout)),
        Err(LogicalPlanError::UnsupportedCopyTarget)
    );
    assert_eq!(
        LogicalPlaner.plan_copy(stmt(false, CopyTarget::Program { command: "cat".to_string() })),
        Err(LogicalPlanError::UnsupportedCopyTarget)
    );
}

#[test]
fn delete_filters_a_scan_with_row_handles() {
    let stmt = BoundDelete { from_table: table(2, &["a"]), where_clause: Some(column(0, "a")) };
    let plan = LogicalPlaner.plan(BoundStatement::Delete(Box::new(stmt))).unwrap();
    let expected: LogicalPlanRef = Rc::new(LogicalPlan::LogicalDelete(LogicalDelete {
        table_ref_id: TableRefId::new(0, 0, 2),
        child: Rc::new(LogicalPlan::LogicalFilter(LogicalFilter {
            expr: column(0, "a"),
            child: get(2, &["a"], true, false),
        })),
    }));
    assert_eq!(plan, expected);
}

#[test]
fn delete_needs_a_predicate_and_one_table() {
    let stmt = BoundDelete { from_table: table(2, &["a"]), where_clause: None };
    assert_eq!(LogicalPlaner.plan_delete(stmt), Err(LogicalPlanError::DeleteWithoutPredicate));
    let joined = BoundTableRef::JoinTableRef { relation: Box::new(table(0, &["a"])), join_tables: vec![] };
    let stmt = BoundDelete { from_table: joined, where_clause: None };
    assert_eq!(LogicalPlaner.plan_delete(stmt), Err(LogicalPlanError::UnsupportedDeleteTarget));
}

#[test]
fn explain_wraps_the_plan_and_passes_errors_on() {
    let inner = BoundStatement::Drop(BoundDrop { object: Object::Table(TableRefId::new(0, 0, 7)) });
    let plan = LogicalPlaner.plan(BoundStatement::Explain(Box::new(inner))).unwrap();
    let expected: LogicalPlanRef = Rc::new(LogicalPlan::LogicalExplain(LogicalExplain {
        child: Rc::new(LogicalPlan::LogicalDrop(LogicalDrop {
            object: Object::Table(TableRefId::new(0, 0, 7)),
        })),
    }));
    assert_eq!(plan, expected);
    let bad = BoundStatement::Select(Box::new(BoundSelect { select_distinct: true, ..select() }));
    assert_eq!(
        LogicalPlaner.plan_explain(bad),
        Err(LogicalPlanError::UnsupportedDistinct)
    );
}

#[test]
fn children_come_in_order() {
    let left = get(0, &["a"], false, false);
    let right = get(1, &["b"], false, false);
    let join = LogicalPlan::LogicalJoin(LogicalJoin {
        left_plan: left.clone(),
        right_plan: right.clone(),
        join_op: on(BoundExpr::Constant(DataValue::Bool(true))),
    });
    let children = join.children();
    assert_eq!(children.len(), 2);
    let children = children.to_vec();
    assert!(Rc::ptr_eq(&children[0], &left));
    assert!(Rc::ptr_eq(&children[1], &right));
    assert_eq!(left.children().len(), 0);
    let limit = LogicalLimit { offset: 0, limit: 1, child: right.clone() };
    let children = limit.children();
    assert_eq!(children.len(), 1);
    assert!(Rc::ptr_eq(&children.get(0), &right));
}

#[test]
fn a_node_over_other_children_keeps_its_fields() {
    let left = get(0, &["a"], false, false);
    let right = get(1, &["b"], false, false);
    let join = LogicalPlan::LogicalJoin(LogicalJoin {
        left_plan: left.clone(),
        right_plan: right.clone(),
        join_op: on(column(0, "a")),
    });
    let swapped = join.clone_with_children(vec![right.clone(), left.clone()]);
    let expected: LogicalPlanRef = Rc::new(LogicalPlan::LogicalJoin(LogicalJoin {
        left_plan: right,
        right_plan: left.clone(),
        join_op: on(column(0, "a")),
    }));
    assert_eq!(swapped, expected);
    let same = join.clone_with_children(join.children().to_vec());
    assert_eq!(*same, join);
    let limit = LogicalPlan::LogicalLimit(LogicalLimit { offset: 3, limit: 4, child: left.clone() });
    let moved = limit.clone_with_children(vec![swapped.clone()]);
    let expected: LogicalPlanRef = Rc::new(LogicalPlan::LogicalLimit(LogicalLimit {
        offset: 3,
        limit: 4,
        child: swapped,
    }));
    assert_eq!(moved, expected);
    assert_eq!(left.clone_with_children(vec![]), left);
}

#[test]
fn statements_of_ordinary_size_fit() {
    let expr = binary(
        BinaryOperator::Plus,
        BoundExpr::AggCall(agg(AggKind::Sum, column(1, "b"))),
        BoundExpr::AggCall(agg(AggKind::Max, column(0, "a"))),
    );
    assert_eq!(count_agg_calls(3, &expr), Some(5));
    assert_eq!(count_agg_calls(usize::MAX - 1, &expr), None);
    assert_eq!(count_agg_calls(usize::MAX - 2, &expr), Some(usize::MAX));
    assert_eq!(count_agg_calls(usize::MAX, &column(0, "a")), Some(usize::MAX));
    let aliased = BoundExpr::Alias(BoundAlias { alias: "s".to_string(), expr: Box::new(expr.clone()) });
    assert_eq!(count_agg_calls(0, &aliased), Some(0));

    let stmt = BoundSelect {
        select_list: vec![expr, column(0, "a")],
        from_table: vec![table(0, &["a", "b"])],
        group_by: vec![column(0, "a")],
        ..select()
    };
    assert!(LogicalPlaner.select_fits(&stmt));
    let stmt = BoundStatement::Explain(Box::new(BoundStatement::Select(Box::new(stmt))));
    assert!(LogicalPlaner.fits(&stmt));
    assert!(LogicalPlaner.fits(&BoundStatement::Drop(BoundDrop {
        object: Object::Table(TableRefId::new(0, 0, 1)),
    })));
}

#[test]
fn kinds_go_by_the_names_that_bind_to_them() {
    assert_eq!(AggKind::RowCount.name(), "count");
    assert_eq!(AggKind::Count.name(), "count");
    assert_eq!(AggKind::DPCount(0).name(), "dp_count");
    assert_eq!(AggKind::DPSum(0).name(), "dp_sum");
    for kind in [AggKind::Max, AggKind::Min, AggKind::Sum, AggKind::Count] {
        let bound = bind_aggregate(&kind.name().to_string(), vec![column(0, "a")]).unwrap();
        assert_eq!(bound, BoundExpr::AggCall(agg(kind, column(0, "a"))));
    }
}

#[test]
fn a_list_of_children_grows_at_its_end() {
    let mut children = PlanChildren::new();
    assert_eq!(children.len(), 0);
    assert!(children.to_vec().is_empty());
    let plans = [
        get(0, &["a"], false, false),
        get(1, &["b"], false, false),
        get(2, &["c"], false, false),
    ];
    for plan in &plans {
        children.push(plan.clone());
    }
    assert_eq!(children.len(), 3);
    for (i, plan) in plans.iter().enumerate() {
        assert!(Rc::ptr_eq(&children.get(i), plan));
    }
    assert_eq!(children.to_vec(), plans.to_vec());
}
