use std::rc::Rc;

use query_planner::binder::{
    AggKind, BoundAggCall, BoundColumnRef, BoundExpr, BoundInputRef, BoundJoinConstraint,
    BoundJoinOperator, BoundOrderBy, Object,
};
use query_planner::catalog::{ColumnDesc, ColumnRefId, TableRefId};
use query_planner::logical_optimizer::plan_rewriter::{rewrite_exprs, rewrite_plan_inner};
use query_planner::logical_optimizer::{rewrite_plan, NoRewrite, PlanRewriter};
use query_planner::logical_planner::{
    LogicalAggregate, LogicalDrop, LogicalExplain, LogicalFilter, LogicalGet, LogicalInsert,
    LogicalJoin, LogicalLimit, LogicalOrder, LogicalPlan, LogicalPlanRef, LogicalProjection,
    LogicalValues,
};
use query_planner::types::{DataType, DataTypeKind, DataValue};

fn int_type() -> DataType {
    DataTypeKind::Int(None).not_null()
}

fn desc(name: &str) -> ColumnDesc {
    int_type().to_column(name.to_string())
}

fn column(column: u32, name: &str) -> BoundExpr {
    BoundExpr::ColumnRef(BoundColumnRef {
        column_ref_id: ColumnRefId::new(0, 0, 0, column),
        is_primary_key: false,
        desc: desc(name),
    })
}

fn numbered(index: usize) -> BoundExpr {
    BoundExpr::InputRef(BoundInputRef { index, return_type: int_type() })
}

fn scan() -> LogicalPlanRef {
    Rc::new(LogicalPlan::LogicalGet(LogicalGet {
        table_ref_id: TableRefId::new(0, 0, 0),
        column_ids: vec![0, 1],
        column_descs: vec![desc("a"), desc("b")],
        with_row_handler: false,
        is_sorted: false,
    }))
}

/// Replaces each expression by its number in the order of the visit.
struct Numbering {
    next: usize,
}

impl PlanRewriter for Numbering {
    fn rewrite_expr(&mut self, _expr: BoundExpr) -> BoundExpr {
        let index = self.next;
        self.next += 1;
        numbered(index)
    }
}

#[test]
fn a_plan_without_expressions_is_handed_back_as_it_was() {
    let leaf = scan();
    let plan: LogicalPlanRef = Rc::new(LogicalPlan::LogicalExplain(LogicalExplain {
        child: Rc::new(LogicalPlan::LogicalLimit(LogicalLimit {
            offset: 0,
            limit: 1,
            child: Rc::new(LogicalPlan::LogicalInsert(LogicalInsert {
                table_ref_id: TableRefId::new(0, 0, 1),
                column_ids: vec![0],
                child: leaf,
            })),
        })),
    }));
    let mut rule = Numbering { next: 0 };
    let result = rewrite_plan(&mut rule, plan.clone());
    assert!(Rc::ptr_eq(&result, &plan));
    assert_eq!(rule.next, 0);
    assert!(rewrite_plan_inner(&mut rule, plan).is_none());

    let drop: LogicalPlanRef = Rc::new(LogicalPlan::LogicalDrop(LogicalDrop {
        object: Object::Table(TableRefId::new(0, 0, 1)),
    }));
    assert!(Rc::ptr_eq(&rewrite_plan(&mut NoRewrite, drop.clone()), &drop));
    let values: LogicalPlanRef = Rc::new(LogicalPlan::LogicalValues(LogicalValues {
        column_types: vec![int_type()],
        values: vec![vec![column(0, "a")]],
    }));
    assert!(Rc::ptr_eq(&rewrite_plan(&mut rule, values.clone()), &values));
    assert_eq!(rule.next, 0);
}

#[test]
fn unchanged_subtrees_stay_shared() {
    let left = scan();
    let right: LogicalPlanRef = Rc::new(LogicalPlan::LogicalLimit(LogicalLimit {
        offset: 0,
        limit: 1,
        child: scan(),
    }));
    let plan: LogicalPlanRef = Rc::new(LogicalPlan::LogicalJoin(LogicalJoin {
        left_plan: left.clone(),
        right_plan: right.clone(),
        join_op: BoundJoinOperator::Inner(BoundJoinConstraint::On(column(0, "a"))),
    }));
    let result = rewrite_plan(&mut NoRewrite, plan.clone());
    assert_eq!(result, plan);
    match &*result {
        LogicalPlan::LogicalJoin(join) => {
            assert!(Rc::ptr_eq(&join.left_plan, &left));
            assert!(Rc::ptr_eq(&join.right_plan, &right));
        }
        other => panic!("unexpected {:?}", other),
    }
}

#[test]
fn the_rule_that_changes_nothing_keeps_the_value() {
    let plan: LogicalPlanRef = Rc::new(LogicalPlan::LogicalOrder(LogicalOrder {
        comparators: vec![BoundOrderBy { expr: column(1, "b"), descending: true }],
        child: Rc::new(LogicalPlan::LogicalProjection(LogicalProjection {
            project_expressions: vec![column(0, "a"), column(1, "b")],
            child: Rc::new(LogicalPlan::LogicalAggregate(LogicalAggregate {
                agg_calls: vec![BoundAggCall {
                    kind: AggKind::Sum,
                    args: vec![column(0, "a")],
                    return_type: int_type(),
                }],
                group_keys: vec![column(1, "b")],
                child: Rc::new(LogicalPlan::LogicalFilter(LogicalFilter {
                    expr: BoundExpr::Constant(DataValue::Bool(true)),
                    child: scan(),
                })),
            })),
        })),
    }));
    let result = rewrite_plan(&mut NoRewrite, plan.clone());
    assert_eq!(result, plan);
    assert!(!Rc::ptr_eq(&result, &plan));
}

#[test]
fn children_come_before_their_parent_and_left_before_right() {
    // the numbers show the order in which the rule saw the expressions
    let plan: LogicalPlanRef = Rc::new(LogicalPlan::LogicalProjection(LogicalProjection {
        project_expressions: vec![column(0, "a"), column(1, "b")],
        child: Rc::new(LogicalPlan::LogicalJoin(LogicalJoin {
            left_plan: Rc::new(LogicalPlan::LogicalFilter(LogicalFilter {
                expr: column(0, "a"),
                child: scan(),
            })),
            right_plan: Rc::new(LogicalPlan::LogicalOrder(LogicalOrder {
                comparators: vec![
                    BoundOrderBy { expr: column(0, "a"), descending: false },
                    BoundOrderBy { expr: column(1, "b"), descending: true },
                ],
                child: scan(),
            })),
            join_op: BoundJoinOperator::LeftOuter(BoundJoinConstraint::On(column(1, "b"))),
        })),
    }));
    let mut rule = Numbering { next: 0 };
    let result = rewrite_plan(&mut rule, plan);
    let expected: LogicalPlanRef = Rc::new(LogicalPlan::LogicalProjection(LogicalProjection {
        project_expressions: vec![numbered(4), numbered(5)],
        child: Rc::new(LogicalPlan::LogicalJoin(LogicalJoin {
            left_plan: Rc::new(LogicalPlan::LogicalFilter(LogicalFilter {
                expr: numbered(0),
                child: scan(),
            })),
            right_plan: Rc::new(LogicalPlan::LogicalOrder(LogicalOrder {
                comparators: vec![
                    BoundOrderBy { expr: numbered(1), descending: false },
                    BoundOrderBy { expr: numbered(2), descending: true },
                ],
                child: scan(),
            })),
            join_op: BoundJoinOperator::LeftOuter(BoundJoinConstraint::On(numbered(3))),
        })),
    }));
    assert_eq!(result, expected);
    assert_eq!(rule.next, 6);
}

#[test]
fn of_an_aggregation_the_arguments_are_rewritten_and_the_keys_kept() {
    let plan: LogicalPlanRef = Rc::new(LogicalPlan::LogicalAggregate(LogicalAggregate {
        agg_calls: vec![
            BoundAggCall {
                kind: AggKind::Max,
                args: vec![column(0, "a"), column(1, "b")],
                return_type: int_type(),
            },
            BoundAggCall { kind: AggKind::Count, args: vec![column(1, "b")], return_type: int_type() },
        ],
        group_keys: vec![column(1, "b")],
        child: scan(),
    }));
    let mut rule = Numbering { next: 10 };
    let result = rewrite_plan(&mut rule, plan);
    let expected: LogicalPlanRef = Rc::new(LogicalPlan::LogicalAggregate(LogicalAggregate {
        agg_calls: vec![
            BoundAggCall {
                kind: AggKind::Max,
                args: vec![numbered(10), numbered(11)],
                return_type: int_type(),
            },
            BoundAggCall { kind: AggKind::Count, args: vec![numbered(12)], return_type: int_type() },
        ],
        group_keys: vec![column(1, "b")],
        child: scan(),
    }));
    assert_eq!(result, expected);
}

#[test]
fn a_change_below_rebuilds_the_nodes_above() {
    let plan: LogicalPlanRef = Rc::new(LogicalPlan::LogicalLimit(LogicalLimit {
        offset: 2,
        limit: 3,
        child: Rc::new(LogicalPlan::LogicalFilter(LogicalFilter {
            expr: column(0, "a"),
            child: scan(),
        })),
    }));
    let mut rule = Numbering { next: 7 };
    let result = rewrite_plan_inner(&mut rule, plan).unwrap();
    let expected: LogicalPlanRef = Rc::new(LogicalPlan::LogicalLimit(LogicalLimit {
        offset: 2,
        limit: 3,
        child: Rc::new(LogicalPlan::LogicalFilter(LogicalFilter {
            expr: numbered(7),
            child: scan(),
        })),
    }));
    assert_eq!(result, expected);
}

#[test]
fn a_list_is_rewritten_in_order() {
    let mut rule = Numbering { next: 0 };
    let result = rewrite_exprs(&mut rule, &vec![column(0, "a"), column(1, "b"), column(0, "a")]);
    assert_eq!(result, vec![numbered(0), numbered(1), numbered(2)]);
}
