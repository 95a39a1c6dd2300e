use std::rc::Rc;

use query_planner::logical_planner::AggExtractor;
use query_planner::physical_planner::input_ref_resolver::{
    count_select_aggs, select_expr_typed, select_list_resolves,
};
use query_planner::binder::{
    AggKind, BinaryOperator, BoundAggCall, BoundAlias, BoundBinaryOp, BoundColumnRef, BoundExpr,
    BoundInputRef, BoundJoinConstraint, BoundJoinOperator, BoundOrderBy,
};
use query_planner::catalog::{ColumnDesc, ColumnRefId, TableRefId};
use query_planner::logical_planner::{
    LogicalAggregate, LogicalFilter, LogicalGet, LogicalJoin, LogicalLimit, LogicalOrder,
    LogicalPlan, LogicalPlanRef, LogicalProjection, LogicalValues,
};
use query_planner::physical_planner::input_ref_resolver::{position_of, resolve_select_list};
use query_planner::physical_planner::{AggInputRefResolver, InputRefResolver};
use query_planner::types::{DataType, DataTypeKind, DataValue};

fn int_type() -> DataType {
    DataTypeKind::Int(None).not_null()
}

fn desc(name: &str) -> ColumnDesc {
    int_type().to_column(name.to_string())
}

fn column(table: u32, column: u32, name: &str) -> BoundExpr {
    BoundExpr::ColumnRef(BoundColumnRef {
        column_ref_id: ColumnRefId::new(0, 0, table, column),
        is_primary_key: false,
        desc: desc(name),
    })
}

fn input_ref(index: usize) -> BoundExpr {
    BoundExpr::InputRef(BoundInputRef { index, return_type: int_type() })
}

fn plus(left: BoundExpr, right: BoundExpr) -> BoundExpr {
    BoundExpr::BinaryOp(BoundBinaryOp {
        op: BinaryOperator::Plus,
        left_expr: Box::new(left),
        right_expr: Box::new(right),
        return_type: Some(int_type()),
    })
}

fn equal(left: BoundExpr, right: BoundExpr) -> BoundExpr {
    BoundExpr::BinaryOp(BoundBinaryOp {
        op: BinaryOperator::Eq,
        left_expr: Box::new(left),
        right_expr: Box::new(right),
        return_type: Some(DataTypeKind::Boolean.not_null()),
    })
}

fn sum(arg: BoundExpr) -> BoundAggCall {
    BoundAggCall { kind: AggKind::Sum, args: vec![arg], return_type: int_type() }
}

fn scan(table: u32, names: &[&str]) -> LogicalPlanRef {
    Rc::new(LogicalPlan::LogicalGet(LogicalGet {
        table_ref_id: TableRefId::new(0, 0, table),
        column_ids: (0..names.len() as u32).collect(),
        column_descs: names.iter().map(|n| desc(n)).collect(),
        with_row_handler: false,
        is_sorted: false,
    }))
}

/// To be resolved:
/// ```sql
/// select v2 + 1, sum(v1) from t group by v2 + 1
/// ```
/// The resolved select list is `[#0, #1]`.
#[test]
fn test_resolve_select_expr() {
    let sum_v1_call = BoundExpr::AggCall(BoundAggCall {
        kind: AggKind::Sum,
        args: vec![BoundExpr::ColumnRef(BoundColumnRef {
            column_ref_id: ColumnRefId::new(0, 0, 0, 0),
            is_primary_key: false,
            desc: DataTypeKind::Int(None).not_null().to_column("v1".into()),
        })],
        return_type: DataTypeKind::Int(None).not_null(),
    });
    let v2_plus_1_expr = BoundExpr::BinaryOp(BoundBinaryOp {
        op: BinaryOperator::Plus,
        left_expr: BoundExpr::ColumnRef(BoundColumnRef {
            column_ref_id: ColumnRefId::new(0, 0, 0, 1),
            is_primary_key: false,
            desc: DataTypeKind::Int(None).not_null().to_column("v2".into()),
        })
        .into(),
        right_expr: BoundExpr::Constant(DataValue::Int32(1)).into(),
        return_type: Some(DataTypeKind::Int(None).not_null()),
    });
    let group_keys = vec![v2_plus_1_expr.clone()];
    let mut select_list = vec![v2_plus_1_expr, sum_v1_call];

    let mut resolver = AggInputRefResolver::new(group_keys.len());
    for expr in &mut select_list {
        resolver.resolve_select_expr(expr, &group_keys);
    }

    assert_eq!(
        select_list[0],
        BoundExpr::InputRef(BoundInputRef {
            index: 0,
            return_type: DataTypeKind::Int(None).not_null(),
        })
    );
    assert_eq!(
        select_list[1],
        BoundExpr::InputRef(BoundInputRef {
            index: 1,
            return_type: DataTypeKind::Int(None).not_null(),
        })
    );
}

/// To be resolved:
/// ```sql
/// select v2 + 1 + sum(v1) from t group by v2 + 1
/// ```
/// The resolved select list is `[#0 + #1]`.
#[test]
fn test_resolve_select_expr_plus_agg_call() {
    let sum_v1_call = BoundExpr::AggCall(BoundAggCall {
        kind: AggKind::Sum,
        args: vec![BoundExpr::ColumnRef(BoundColumnRef {
            column_ref_id: ColumnRefId::new(0, 0, 0, 0),
            is_primary_key: false,
            desc: DataTypeKind::Int(None).not_null().to_column("v1".into()),
        })],
        return_type: DataTypeKind::Int(None).not_null(),
    });
    let v2_expr = BoundExpr::ColumnRef(BoundColumnRef {
        column_ref_id: ColumnRefId::new(0, 0, 0, 1),
        is_primary_key: false,
        desc: DataTypeKind::Int(None).not_null().to_column("v2".into()),
    });
    let v2_plus_1_expr = BoundExpr::BinaryOp(BoundBinaryOp {
        op: BinaryOperator::Plus,
        left_expr: v2_expr.into(),
        right_expr: BoundExpr::Constant(DataValue::Int32(1)).into(),
        return_type: Some(DataTypeKind::Int(None).not_null()),
    });
    let v2_plus_1_plus_sum_expr = BoundExpr::BinaryOp(BoundBinaryOp {
        op: BinaryOperator::Plus,
        left_expr: v2_plus_1_expr.clone().into(),
        right_expr: sum_v1_call.into(),
        return_type: Some(DataTypeKind::Int(None).not_null()),
    });
    let group_keys = vec![v2_plus_1_expr];
    let mut select_list = vec![v2_plus_1_plus_sum_expr];

    let mut resolver = AggInputRefResolver::new(group_keys.len());
    for expr in &mut select_list {
        resolver.resolve_select_expr(expr, &group_keys);
    }

    assert_eq!(
        select_list[0],
        BoundExpr::BinaryOp(BoundBinaryOp {
            op: BinaryOperator::Plus,
            left_expr: BoundExpr::InputRef(BoundInputRef {
                index: 0,
                return_type: DataTypeKind::Int(None).not_null(),
            })
            .into(),
            right_expr: BoundExpr::InputRef(BoundInputRef {
                index: 1,
                return_type: DataTypeKind::Int(None).not_null(),
            })
            .into(),
            return_type: Some(DataTypeKind::Int(None).not_null()),
        })
    );
}

#[test]
fn aggregate_positions_run_on_through_the_select_list() {
    // select sum(a) + sum(b), a, sum(c) as s from t group by a
    let a = column(0, 0, "a");
    let keys = vec![a.clone()];
    let list = vec![
        plus(
            BoundExpr::AggCall(sum(column(0, 0, "a"))),
            BoundExpr::AggCall(sum(column(0, 1, "b"))),
        ),
        a.clone(),
        BoundExpr::Alias(BoundAlias {
            alias: "s".to_string(),
            expr: Box::new(BoundExpr::AggCall(sum(column(0, 2, "c")))),
        }),
    ];
    let resolved = resolve_select_list(&list, &keys);
    assert_eq!(
        resolved,
        vec![
            plus(input_ref(1), input_ref(2)),
            input_ref(0),
            BoundExpr::Alias(BoundAlias { alias: "s".to_string(), expr: Box::new(input_ref(3)) }),
        ]
    );
}

#[test]
fn a_group_key_is_taken_whole() {
    // the key holds a call; the call inside the match gets no position
    let key = plus(BoundExpr::AggCall(sum(column(0, 0, "a"))), column(0, 1, "b"));
    let keys = vec![column(0, 5, "z"), key.clone()];
    let mut expr = plus(key, BoundExpr::AggCall(sum(column(0, 2, "c"))));
    let mut resolver = AggInputRefResolver::new(keys.len());
    resolver.resolve_select_expr(&mut expr, &keys);
    assert_eq!(expr, plus(input_ref(1), input_ref(2)));
    assert_eq!(resolver.agg_start_index, 3);
}

#[test]
fn first_equal_key_wins() {
    let keys = vec![column(0, 0, "a"), column(0, 1, "b"), column(0, 0, "a")];
    assert_eq!(position_of(&keys, &column(0, 0, "a")), Some(0));
    assert_eq!(position_of(&keys, &column(0, 1, "b")), Some(1));
    assert_eq!(position_of(&keys, &column(0, 2, "c")), None);
}

#[test]
fn scan_binds_its_columns() {
    let mut resolver = InputRefResolver::default();
    let plan = scan(3, &["a", "b"]);
    let resolved = resolver.rewrite_plan(plan.clone());
    assert_eq!(resolved, plan);
    assert_eq!(
        resolver.bindings(),
        &vec![Some(column(3, 0, "a")), Some(column(3, 1, "b"))]
    );
}

#[test]
fn scan_binds_the_columns_that_have_a_descriptor() {
    let mut resolver = InputRefResolver::default();
    let plan = Rc::new(LogicalPlan::LogicalGet(LogicalGet {
        table_ref_id: TableRefId::new(0, 0, 1),
        column_ids: vec![0, 1, 2],
        column_descs: vec![desc("a")],
        with_row_handler: false,
        is_sorted: false,
    }));
    resolver.rewrite_plan(plan);
    assert_eq!(resolver.bindings(), &vec![Some(column(1, 0, "a"))]);
}

#[test]
fn filter_and_projection_over_a_scan() {
    // select b + 1 from t where a = b
    let plan: LogicalPlanRef = Rc::new(LogicalPlan::LogicalProjection(LogicalProjection {
        project_expressions: vec![plus(column(0, 1, "b"), BoundExpr::Constant(DataValue::Int32(1)))],
        child: Rc::new(LogicalPlan::LogicalFilter(LogicalFilter {
            expr: equal(column(0, 0, "a"), column(0, 1, "b")),
            child: scan(0, &["a", "b"]),
        })),
    }));
    let mut resolver = InputRefResolver::default();
    let resolved = resolver.rewrite_plan(plan);
    let expected: LogicalPlanRef = Rc::new(LogicalPlan::LogicalProjection(LogicalProjection {
        project_expressions: vec![plus(input_ref(1), BoundExpr::Constant(DataValue::Int32(1)))],
        child: Rc::new(LogicalPlan::LogicalFilter(LogicalFilter {
            expr: equal(input_ref(0), input_ref(1)),
            child: scan(0, &["a", "b"]),
        })),
    }));
    assert_eq!(resolved, expected);
    // the projection binds its expression as it stood before resolution
    assert_eq!(
        resolver.bindings(),
        &vec![Some(plus(column(0, 1, "b"), BoundExpr::Constant(DataValue::Int32(1))))]
    );
}

#[test]
fn join_condition_sees_both_sides() {
    // t(a, b) join u(c, d) on b = c
    let plan: LogicalPlanRef = Rc::new(LogicalPlan::LogicalJoin(LogicalJoin {
        left_plan: scan(0, &["a", "b"]),
        right_plan: scan(1, &["c", "d"]),
        join_op: BoundJoinOperator::Inner(BoundJoinConstraint::On(equal(
            column(0, 1, "b"),
            column(1, 0, "c"),
        ))),
    }));
    let mut resolver = InputRefResolver::default();
    let resolved = resolver.rewrite_plan(plan);
    match &*resolved {
        LogicalPlan::LogicalJoin(join) => {
            assert_eq!(
                join.join_op,
                BoundJoinOperator::Inner(BoundJoinConstraint::On(equal(input_ref(1), input_ref(2))))
            );
        }
        other => panic!("unexpected {:?}", other),
    }
    assert_eq!(
        resolver.bindings(),
        &vec![
            Some(column(0, 0, "a")),
            Some(column(0, 1, "b")),
            Some(column(1, 0, "c")),
            Some(column(1, 1, "d")),
        ]
    );
}

#[test]
fn nested_join_offsets_the_right_side() {
    // (t join u on a = c) join w on d = e : the right side starts at 4
    let inner: LogicalPlanRef = Rc::new(LogicalPlan::LogicalJoin(LogicalJoin {
        left_plan: scan(0, &["a", "b"]),
        right_plan: scan(1, &["c", "d"]),
        join_op: BoundJoinOperator::LeftOuter(BoundJoinConstraint::On(equal(
            column(0, 0, "a"),
            column(1, 0, "c"),
        ))),
    }));
    let plan: LogicalPlanRef = Rc::new(LogicalPlan::LogicalJoin(LogicalJoin {
        left_plan: inner,
        right_plan: scan(2, &["e"]),
        join_op: BoundJoinOperator::RightOuter(BoundJoinConstraint::On(equal(
            column(1, 1, "d"),
            column(2, 0, "e"),
        ))),
    }));
    let mut resolver = InputRefResolver::default();
    let resolved = resolver.rewrite_plan(plan);
    match &*resolved {
        LogicalPlan::LogicalJoin(join) => {
            assert_eq!(
                join.join_op,
                BoundJoinOperator::RightOuter(BoundJoinConstraint::On(equal(
                    input_ref(3),
                    input_ref(4)
                )))
            );
            match &*join.left_plan {
                LogicalPlan::LogicalJoin(left) => assert_eq!(
                    left.join_op,
                    BoundJoinOperator::LeftOuter(BoundJoinConstraint::On(equal(
                        input_ref(0),
                        input_ref(2)
                    )))
                ),
                other => panic!("unexpected {:?}", other),
            }
        }
        other => panic!("unexpected {:?}", other),
    }
    assert_eq!(resolver.bindings().len(), 5);
}

#[test]
fn projection_over_aggregation() {
    // select b + 1, sum(a) from t group by b + 1, after the calls were taken out
    let key = plus(column(0, 1, "b"), BoundExpr::Constant(DataValue::Int32(1)));
    let plan: LogicalPlanRef = Rc::new(LogicalPlan::LogicalProjection(LogicalProjection {
        project_expressions: vec![key.clone(), input_ref(1)],
        child: Rc::new(LogicalPlan::LogicalAggregate(LogicalAggregate {
            agg_calls: vec![sum(column(0, 0, "a"))],
            group_keys: vec![key.clone()],
            child: scan(0, &["a", "b"]),
        })),
    }));
    let mut resolver = InputRefResolver::default();
    let resolved = resolver.rewrite_plan(plan);
    let expected: LogicalPlanRef = Rc::new(LogicalPlan::LogicalProjection(LogicalProjection {
        project_expressions: vec![input_ref(0), input_ref(1)],
        child: Rc::new(LogicalPlan::LogicalAggregate(LogicalAggregate {
            agg_calls: vec![sum(input_ref(0))],
            group_keys: vec![plus(input_ref(1), BoundExpr::Constant(DataValue::Int32(1)))],
            child: scan(0, &["a", "b"]),
        })),
    }));
    assert_eq!(resolved, expected);
    assert_eq!(resolver.bindings(), &vec![Some(key), Some(input_ref(1))]);
}

#[test]
fn order_and_limit_pass_the_columns_on() {
    let plan: LogicalPlanRef = Rc::new(LogicalPlan::LogicalLimit(LogicalLimit {
        offset: 1,
        limit: 2,
        child: Rc::new(LogicalPlan::LogicalOrder(LogicalOrder {
            comparators: vec![BoundOrderBy { expr: column(0, 1, "b"), descending: true }],
            child: scan(0, &["a", "b"]),
        })),
    }));
    let mut resolver = InputRefResolver::default();
    let resolved = resolver.rewrite_plan(plan);
    let expected: LogicalPlanRef = Rc::new(LogicalPlan::LogicalLimit(LogicalLimit {
        offset: 1,
        limit: 2,
        child: Rc::new(LogicalPlan::LogicalOrder(LogicalOrder {
            comparators: vec![BoundOrderBy { expr: input_ref(1), descending: true }],
            child: scan(0, &["a", "b"]),
        })),
    }));
    assert_eq!(resolved, expected);
    assert_eq!(resolver.bindings().len(), 2);
}

#[test]
fn values_without_references_stay() {
    let plan: LogicalPlanRef = Rc::new(LogicalPlan::LogicalValues(LogicalValues {
        column_types: vec![int_type()],
        values: vec![
            vec![BoundExpr::Constant(DataValue::Int32(1))],
            vec![BoundExpr::Constant(DataValue::Int32(2))],
        ],
    }));
    let mut resolver = InputRefResolver::default();
    let resolved = resolver.rewrite_plan(plan.clone());
    assert_eq!(resolved, plan);
    assert!(resolver.bindings().is_empty());
}

#[test]
fn references_inside_an_aggregate_call_are_resolved() {
    let mut resolver = InputRefResolver::default();
    resolver.rewrite_plan(scan(0, &["a", "b"]));
    let expr = BoundExpr::AggCall(sum(plus(column(0, 1, "b"), column(0, 0, "a"))));
    assert_eq!(
        resolver.rewrite_expr(&expr),
        BoundExpr::AggCall(sum(plus(input_ref(1), input_ref(0))))
    );
    let mut reference = column(0, 1, "b");
    resolver.rewrite_column_ref(&mut reference);
    assert_eq!(reference, input_ref(1));
}

#[test]
fn planner_and_resolver_give_the_same_positions() {
    // no group key is met and no alias: both walks put the same positions in the same places
    let build = || {
        plus(
            plus(BoundExpr::AggCall(sum(column(0, 0, "a"))), column(0, 1, "b")),
            plus(
                BoundExpr::AggCall(sum(column(0, 1, "b"))),
                BoundExpr::AggCall(sum(column(0, 2, "c"))),
            ),
        )
    };
    let keys = vec![column(0, 5, "k"), column(0, 6, "l")];
    let mut taken = build();
    let mut extractor = AggExtractor::new(keys.len());
    extractor.visit_expr(&mut taken);
    let mut resolved = build();
    let mut resolver = AggInputRefResolver::new(keys.len());
    resolver.resolve_select_expr(&mut resolved, &keys);
    assert_eq!(taken, resolved);
    assert_eq!(
        taken,
        plus(plus(input_ref(2), column(0, 1, "b")), plus(input_ref(3), input_ref(4)))
    );
    assert_eq!(extractor.index, resolver.agg_start_index);
    assert_eq!(extractor.agg_calls.len(), 3);
}

#[test]
fn select_lists_are_checked_before_they_are_resolved() {
    let keys = vec![column(0, 0, "a"), BoundExpr::Constant(DataValue::Null)];
    let typed = plus(column(0, 0, "a"), BoundExpr::AggCall(sum(column(0, 1, "b"))));
    let untyped = plus(column(0, 1, "b"), BoundExpr::Constant(DataValue::Null));
    assert!(select_expr_typed(&typed, &keys));
    assert!(!select_expr_typed(&untyped, &keys));
    assert_eq!(count_select_aggs(2, &typed, &keys), Some(3));
    assert_eq!(count_select_aggs(usize::MAX, &typed, &keys), None);
    assert_eq!(count_select_aggs(usize::MAX, &column(0, 0, "a"), &keys), Some(usize::MAX));
    assert!(select_list_resolves(&vec![typed.clone(), typed.clone()], &keys));
    assert!(!select_list_resolves(&vec![typed, untyped], &keys));
}

#[test]
fn expressions_are_checked_against_the_bindings() {
    let mut resolver = InputRefResolver::default();
    resolver.rewrite_plan(scan(0, &["a", "b"]));
    assert!(resolver.expr_resolves(&plus(column(0, 0, "a"), column(0, 1, "b"))));
    assert!(!resolver.expr_resolves(&plus(column(0, 0, "a"), column(1, 0, "c"))));
    assert!(!resolver.expr_resolves(&BoundExpr::AggCall(sum(column(1, 0, "c")))));
    assert!(resolver.exprs_resolve(&vec![column(0, 1, "b"), input_ref(7)]));
    assert!(!resolver.exprs_resolve(&vec![column(0, 1, "b"), column(0, 2, "c")]));
    // a column of the same id with another descriptor is another column
    let renamed = BoundExpr::ColumnRef(BoundColumnRef {
        column_ref_id: ColumnRefId::new(0, 0, 0, 0),
        is_primary_key: false,
        desc: desc("other"),
    });
    assert!(!resolver.expr_resolves(&renamed));
}
