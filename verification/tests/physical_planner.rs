use std::rc::Rc;

use query_planner::binder::{
    AggKind, BinaryOperator, BoundAggCall, BoundBinaryOp, BoundColumnRef, BoundExpr,
    BoundInputRef, BoundJoinConstraint, BoundJoinOperator, BoundOrderBy, BoundSelect,
    BoundStatement, BoundTableRef, FileFormat, Object,
};
use query_planner::catalog::{ColumnCatalog, ColumnDesc, ColumnRefId, TableRefId};
use query_planner::logical_planner::{
    LogicalAggregate, LogicalCopyFromFile, LogicalCopyToFile, LogicalCreateTable, LogicalDelete,
    LogicalDrop, LogicalDummy, LogicalExplain, LogicalFilter, LogicalGet, LogicalInsert,
    LogicalJoin, LogicalLimit, LogicalOrder, LogicalPlan, LogicalPlanRef, LogicalPlaner,
    LogicalProjection, LogicalValues,
};
use query_planner::physical_planner::{
    InputRefResolver, PhysicalCopyFromFile, PhysicalPlanError, PhysicalCopyToFile, PhysicalCreateTable,
    PhysicalDelete, PhysicalDrop, PhysicalDummy, PhysicalExplain, PhysicalFilter, PhysicalHashAgg,
    PhysicalInsert, PhysicalJoin, PhysicalLimit, PhysicalOrder, PhysicalPlan, PhysicalPlaner,
    PhysicalProjection, PhysicalSeqScan, PhysicalSimpleAgg, PhysicalValues,
};
use query_planner::types::{DataType, DataTypeKind, DataValue};

fn int_type() -> DataType {
    DataTypeKind::Int(None).not_null()
}

fn desc(name: &str) -> ColumnDesc {
    int_type().to_column(name.to_string())
}

fn column(table: u32, column: u32, name: &str) -> BoundExpr {
    BoundExpr::ColumnRef(BoundColumnRef {
        column_ref_id: ColumnRefId::new(0, 0, table, column),
        is_primary_key: false,
        desc: desc(name),
    })
}

fn input_ref(index: usize) -> BoundExpr {
    BoundExpr::InputRef(BoundInputRef { index, return_type: int_type() })
}

fn plus(left: BoundExpr, right: BoundExpr) -> BoundExpr {
    BoundExpr::BinaryOp(BoundBinaryOp {
        op: BinaryOperator::Plus,
        left_expr: Box::new(left),
        right_expr: Box::new(right),
        return_type: Some(int_type()),
    })
}

fn sum(arg: BoundExpr) -> BoundAggCall {
    BoundAggCall { kind: AggKind::Sum, args: vec![arg], return_type: int_type() }
}

fn scan(table: u32, names: &[&str]) -> LogicalPlanRef {
    Rc::new(LogicalPlan::LogicalGet(LogicalGet {
        table_ref_id: TableRefId::new(0, 0, table),
        column_ids: (0..names.len() as u32).collect(),
        column_descs: names.iter().map(|n| desc(n)).collect(),
        with_row_handler: true,
        is_sorted: true,
    }))
}

fn seq_scan(table: u32, names: &[&str]) -> PhysicalPlan {
    PhysicalPlan::PhysicalSeqScan(PhysicalSeqScan {
        table_ref_id: TableRefId::new(0, 0, table),
        column_ids: (0..names.len() as u32).collect(),
        column_descs: names.iter().map(|n| desc(n)).collect(),
        with_row_handler: true,
        is_sorted: true,
    })
}

fn csv() -> FileFormat {
    FileFormat::Csv { delimiter: '|', quote: '"', escape: Some('\\'), header: true }
}

fn holds_column_ref(expr: &BoundExpr) -> bool {
    match expr {
        BoundExpr::ColumnRef(_) => true,
        BoundExpr::BinaryOp(b) => holds_column_ref(&b.left_expr) || holds_column_ref(&b.right_expr),
        BoundExpr::UnaryOp(u) => holds_column_ref(&u.expr),
        BoundExpr::TypeCast(t) => holds_column_ref(&t.expr),
        BoundExpr::AggCall(a) => a.args.iter().any(holds_column_ref),
        BoundExpr::IsNull(n) => holds_column_ref(&n.expr),
        BoundExpr::Alias(a) => holds_column_ref(&a.expr),
        _ => false,
    }
}

fn holds_agg_call(expr: &BoundExpr) -> bool {
    match expr {
        BoundExpr::AggCall(_) => true,
        BoundExpr::BinaryOp(b) => holds_agg_call(&b.left_expr) || holds_agg_call(&b.right_expr),
        BoundExpr::UnaryOp(u) => holds_agg_call(&u.expr),
        BoundExpr::TypeCast(t) => holds_agg_call(&t.expr),
        BoundExpr::IsNull(n) => holds_agg_call(&n.expr),
        BoundExpr::Alias(a) => holds_agg_call(&a.expr),
        _ => false,
    }
}

#[test]
fn aggregation_without_keys_is_simple() {
    let plan = LogicalAggregate {
        agg_calls: vec![sum(input_ref(0))],
        group_keys: vec![],
        child: scan(0, &["a"]),
    };
    assert_eq!(
        PhysicalPlaner.plan_aggregate(&plan),
        Ok(PhysicalPlan::PhysicalSimpleAgg(PhysicalSimpleAgg {
            agg_calls: vec![sum(input_ref(0))],
            child: Box::new(seq_scan(0, &["a"])),
        }))
    );
}

#[test]
fn aggregation_with_keys_is_hashed() {
    let plan = LogicalAggregate {
        agg_calls: vec![sum(input_ref(0))],
        group_keys: vec![input_ref(1)],
        child: scan(0, &["a", "b"]),
    };
    assert_eq!(
        PhysicalPlaner.plan_aggregate(&plan),
        Ok(PhysicalPlan::PhysicalHashAgg(PhysicalHashAgg {
            agg_calls: vec![sum(input_ref(0))],
            group_keys: vec![input_ref(1)],
            child: Box::new(seq_scan(0, &["a", "b"])),
        }))
    );
}

#[test]
fn scan_keeps_its_flags() {
    let plan = LogicalGet {
        table_ref_id: TableRefId::new(1, 2, 3),
        column_ids: vec![4, 5],
        column_descs: vec![desc("a"), desc("b")],
        with_row_handler: true,
        is_sorted: false,
    };
    assert_eq!(
        PhysicalPlaner.plan_get(&plan),
        Ok(PhysicalPlan::PhysicalSeqScan(PhysicalSeqScan {
            table_ref_id: TableRefId::new(1, 2, 3),
            column_ids: vec![4, 5],
            column_descs: vec![desc("a"), desc("b")],
            with_row_handler: true,
            is_sorted: false,
        }))
    );
}

#[test]
fn every_node_has_its_counterpart() {
    let planner = PhysicalPlaner;
    assert_eq!(
        planner.plan_inner(&LogicalPlan::LogicalDummy(LogicalDummy)),
        Ok(PhysicalPlan::PhysicalDummy(PhysicalDummy))
    );
    let object = Object::Table(TableRefId::new(0, 0, 1));
    assert_eq!(
        planner.plan_drop(&LogicalDrop { object }),
        Ok(PhysicalPlan::PhysicalDrop(PhysicalDrop { object }))
    );
    let columns = vec![ColumnCatalog::new(0, desc("a"))];
    assert_eq!(
        planner.plan_inner(&LogicalPlan::LogicalCreateTable(LogicalCreateTable {
            database_id: 1,
            schema_id: 2,
            table_name: "t".to_string(),
            columns: columns.clone(),
        })),
        Ok(PhysicalPlan::PhysicalCreateTable(PhysicalCreateTable {
            database_id: 1,
            schema_id: 2,
            table_name: "t".to_string(),
            columns,
        }))
    );
    let rows = vec![vec![BoundExpr::Constant(DataValue::Int32(1))]];
    assert_eq!(
        planner.plan_inner(&LogicalPlan::LogicalInsert(LogicalInsert {
            table_ref_id: TableRefId::new(0, 0, 1),
            column_ids: vec![0],
            child: Rc::new(LogicalPlan::LogicalValues(LogicalValues {
                column_types: vec![int_type()],
                values: rows.clone(),
            })),
        })),
        Ok(PhysicalPlan::PhysicalInsert(PhysicalInsert {
            table_ref_id: TableRefId::new(0, 0, 1),
            column_ids: vec![0],
            child: Box::new(PhysicalPlan::PhysicalValues(PhysicalValues {
                column_types: vec![int_type()],
                values: rows,
            })),
        }))
    );
    assert_eq!(
        planner.plan_copy_from_file(&LogicalCopyFromFile {
            path: "in.csv".to_string(),
            format: csv(),
            column_types: vec![int_type()],
        }),
        Ok(PhysicalPlan::PhysicalCopyFromFile(PhysicalCopyFromFile {
            path: "in.csv".to_string(),
            format: csv(),
            column_types: vec![int_type()],
        }))
    );
    assert_eq!(
        planner.plan_copy_to_file(&LogicalCopyToFile {
            path: "out.csv".to_string(),
            format: csv(),
            column_types: vec![int_type()],
            child: scan(0, &["a"]),
        }),
        Ok(PhysicalPlan::PhysicalCopyToFile(PhysicalCopyToFile {
            path: "out.csv".to_string(),
            format: csv(),
            column_types: vec![int_type()],
            child: Box::new(seq_scan(0, &["a"])),
        }))
    );
    assert_eq!(
        planner.plan_inner(&LogicalPlan::LogicalExplain(LogicalExplain {
            child: Rc::new(LogicalPlan::LogicalDelete(LogicalDelete {
                table_ref_id: TableRefId::new(0, 0, 0),
                child: Rc::new(LogicalPlan::LogicalFilter(LogicalFilter {
                    expr: input_ref(0),
                    child: scan(0, &["a"]),
                })),
            })),
        })),
        Ok(PhysicalPlan::PhysicalExplain(PhysicalExplain {
            child: Box::new(PhysicalPlan::PhysicalDelete(PhysicalDelete {
                table_ref_id: TableRefId::new(0, 0, 0),
                child: Box::new(PhysicalPlan::PhysicalFilter(PhysicalFilter {
                    expr: input_ref(0),
                    child: Box::new(seq_scan(0, &["a"])),
                })),
            })),
        }))
    );
    assert_eq!(
        planner.plan_limit(&LogicalLimit { offset: 5, limit: 7, child: scan(0, &["a"]) }),
        Ok(PhysicalPlan::PhysicalLimit(PhysicalLimit {
            offset: 5,
            limit: 7,
            child: Box::new(seq_scan(0, &["a"])),
        }))
    );
}

#[test]
fn resolution_comes_before_lowering() {
    // select b, a + 1 from t join u on a = c order by d
    let plan: LogicalPlanRef = Rc::new(LogicalPlan::LogicalOrder(LogicalOrder {
        comparators: vec![BoundOrderBy { expr: column(0, 1, "b"), descending: false }],
        child: Rc::new(LogicalPlan::LogicalProjection(LogicalProjection {
            project_expressions: vec![
                column(0, 1, "b"),
                plus(column(0, 0, "a"), BoundExpr::Constant(DataValue::Int32(1))),
            ],
            child: Rc::new(LogicalPlan::LogicalJoin(LogicalJoin {
                left_plan: scan(0, &["a", "b"]),
                right_plan: scan(1, &["c", "d"]),
                join_op: BoundJoinOperator::Inner(BoundJoinConstraint::On(plus(
                    column(0, 0, "a"),
                    column(1, 0, "c"),
                ))),
            })),
        })),
    }));
    assert!(InputRefResolver::default().can_resolve(&plan));
    let physical = PhysicalPlaner.plan(plan).unwrap();
    assert_eq!(
        physical,
        PhysicalPlan::PhysicalOrder(PhysicalOrder {
            comparators: vec![BoundOrderBy { expr: input_ref(0), descending: false }],
            child: Box::new(PhysicalPlan::PhysicalProjection(PhysicalProjection {
                project_expressions: vec![
                    input_ref(1),
                    plus(input_ref(0), BoundExpr::Constant(DataValue::Int32(1))),
                ],
                child: Box::new(PhysicalPlan::PhysicalJoin(PhysicalJoin {
                    join_op: BoundJoinOperator::Inner(BoundJoinConstraint::On(plus(
                        input_ref(0),
                        input_ref(2),
                    ))),
                    left_plan: Box::new(seq_scan(0, &["a", "b"])),
                    right_plan: Box::new(seq_scan(1, &["c", "d"])),
                })),
            })),
        })
    );
}

#[test]
fn offset_without_limit_reaches_the_physical_plan() {
    let stmt = BoundSelect {
        select_list: vec![column(0, 0, "a")],
        from_table: vec![BoundTableRef::BaseTableRef {
            ref_id: TableRefId::new(0, 0, 0),
            table_name: "t".to_string(),
            column_ids: vec![0],
            column_descs: vec![desc("a")],
        }],
        where_clause: None,
        select_distinct: false,
        group_by: vec![],
        orderby: vec![],
        limit: None,
        offset: Some(BoundExpr::Constant(DataValue::Int32(5))),
    };
    let logical = LogicalPlaner.plan(BoundStatement::Select(Box::new(stmt))).unwrap();
    assert!(InputRefResolver::default().can_resolve(&logical));
    match PhysicalPlaner.plan(logical).unwrap() {
        PhysicalPlan::PhysicalLimit(limit) => {
            assert_eq!(limit.offset, 5);
            assert_eq!(limit.limit, usize::MAX / 2);
            assert!(matches!(*limit.child, PhysicalPlan::PhysicalProjection(_)));
        }
        other => panic!("unexpected {:?}", other),
    }
}

#[test]
fn a_grouped_select_from_statement_to_physical_plan() {
    // select b + 1, sum(a), b + 1 + sum(a) from t group by b + 1
    let key = plus(column(0, 1, "b"), BoundExpr::Constant(DataValue::Int32(1)));
    let call = BoundExpr::AggCall(sum(column(0, 0, "a")));
    let stmt = BoundSelect {
        select_list: vec![key.clone(), call.clone(), plus(key.clone(), call)],
        from_table: vec![BoundTableRef::BaseTableRef {
            ref_id: TableRefId::new(0, 0, 0),
            table_name: "t".to_string(),
            column_ids: vec![0, 1],
            column_descs: vec![desc("a"), desc("b")],
        }],
        where_clause: None,
        select_distinct: false,
        group_by: vec![key],
        orderby: vec![],
        limit: None,
        offset: None,
    };
    let logical = LogicalPlaner.plan(BoundStatement::Select(Box::new(stmt))).unwrap();
    assert!(InputRefResolver::default().can_resolve(&logical));
    let physical = PhysicalPlaner.plan(logical).unwrap();
    let scan = PhysicalPlan::PhysicalSeqScan(PhysicalSeqScan {
        table_ref_id: TableRefId::new(0, 0, 0),
        column_ids: vec![0, 1],
        column_descs: vec![desc("a"), desc("b")],
        with_row_handler: false,
        is_sorted: false,
    });
    assert_eq!(
        physical,
        PhysicalPlan::PhysicalProjection(PhysicalProjection {
            project_expressions: vec![
                input_ref(0),
                input_ref(1),
                plus(input_ref(0), input_ref(2)),
            ],
            child: Box::new(PhysicalPlan::PhysicalHashAgg(PhysicalHashAgg {
                agg_calls: vec![sum(input_ref(0)), sum(input_ref(0))],
                group_keys: vec![plus(input_ref(1), BoundExpr::Constant(DataValue::Int32(1)))],
                child: Box::new(scan),
            })),
        })
    );
    match &physical {
        PhysicalPlan::PhysicalProjection(projection) => {
            for expr in &projection.project_expressions {
                assert!(!holds_column_ref(expr));
                assert!(!holds_agg_call(expr));
            }
            match &*projection.child {
                PhysicalPlan::PhysicalHashAgg(agg) => {
                    for key in &agg.group_keys {
                        assert!(!holds_column_ref(key));
                        assert!(!holds_agg_call(key));
                    }
                    for call in &agg.agg_calls {
                        assert!(!call.args.iter().any(holds_column_ref));
                    }
                }
                other => panic!("unexpected {:?}", other),
            }
        }
        other => panic!("unexpected {:?}", other),
    }
}

#[test]
fn what_cannot_be_resolved_is_told_apart() {
    let resolver = InputRefResolver::default();
    // a reference to a column of another table
    let stray: LogicalPlanRef = Rc::new(LogicalPlan::LogicalFilter(LogicalFilter {
        expr: column(9, 0, "z"),
        child: scan(0, &["a"]),
    }));
    assert!(!resolver.can_resolve(&stray));
    // the right side of a join does not see the left side
    let blind: LogicalPlanRef = Rc::new(LogicalPlan::LogicalJoin(LogicalJoin {
        left_plan: scan(0, &["a"]),
        right_plan: Rc::new(LogicalPlan::LogicalFilter(LogicalFilter {
            expr: column(0, 0, "a"),
            child: scan(1, &["c"]),
        })),
        join_op: BoundJoinOperator::Inner(BoundJoinConstraint::On(BoundExpr::Constant(
            DataValue::Bool(true),
        ))),
    }));
    assert!(!resolver.can_resolve(&blind));
    // over an aggregation only group keys and aggregates can be selected
    let ungrouped: LogicalPlanRef = Rc::new(LogicalPlan::LogicalProjection(LogicalProjection {
        project_expressions: vec![column(0, 0, "a")],
        child: Rc::new(LogicalPlan::LogicalAggregate(LogicalAggregate {
            agg_calls: vec![sum(column(0, 0, "a"))],
            group_keys: vec![column(0, 1, "b")],
            child: scan(0, &["a", "b"]),
        })),
    }));
    assert!(!resolver.can_resolve(&ungrouped));
    // a group key without a type cannot be selected
    let untyped: LogicalPlanRef = Rc::new(LogicalPlan::LogicalProjection(LogicalProjection {
        project_expressions: vec![BoundExpr::Constant(DataValue::Null)],
        child: Rc::new(LogicalPlan::LogicalAggregate(LogicalAggregate {
            agg_calls: vec![],
            group_keys: vec![BoundExpr::Constant(DataValue::Null)],
            child: scan(0, &["a", "b"]),
        })),
    }));
    assert!(!resolver.can_resolve(&untyped));
    let fine: LogicalPlanRef = Rc::new(LogicalPlan::LogicalProjection(LogicalProjection {
        project_expressions: vec![column(0, 1, "b")],
        child: Rc::new(LogicalPlan::LogicalAggregate(LogicalAggregate {
            agg_calls: vec![sum(column(0, 0, "a"))],
            group_keys: vec![column(0, 1, "b")],
            child: scan(0, &["a", "b"]),
        })),
    }));
    assert!(resolver.can_resolve(&fine));
    assert!(resolver.bindings().is_empty());
}

#[test]
fn a_plan_that_cannot_be_resolved_is_invalid() {
    let stray: LogicalPlanRef = Rc::new(LogicalPlan::LogicalFilter(LogicalFilter {
        expr: column(9, 0, "z"),
        child: scan(0, &["a"]),
    }));
    assert_eq!(PhysicalPlaner.try_plan(stray), Err(PhysicalPlanError::InvalidLogicalPlan));
    let fine: LogicalPlanRef = Rc::new(LogicalPlan::LogicalFilter(LogicalFilter {
        expr: column(0, 0, "a"),
        child: scan(0, &["a"]),
    }));
    assert_eq!(
        PhysicalPlaner.try_plan(fine),
        Ok(PhysicalPlan::PhysicalFilter(PhysicalFilter {
            expr: input_ref(0),
            child: Box::new(seq_scan(0, &["a"])),
        }))
    );
}

#[test]
fn physical_plans_can_be_copied() {
    let plan = PhysicalPlan::PhysicalLimit(PhysicalLimit {
        offset: 1,
        limit: 2,
        child: Box::new(PhysicalPlan::PhysicalHashAgg(PhysicalHashAgg {
            agg_calls: vec![sum(input_ref(0))],
            group_keys: vec![input_ref(1)],
            child: Box::new(seq_scan(0, &["a", "b"])),
        })),
    });
    assert_eq!(plan.clone(), plan);
    assert_eq!(plan.duplicate(), plan);
}
