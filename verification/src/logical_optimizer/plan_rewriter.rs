//! The traversal that every rewrite rule shares.
//!
//! A rule says what it makes of one expression. The traversal walks a plan
//! tree, children before their parent, and hands the rule each expression of
//! the nodes that hold some. A node without a change below it is handed back
//! as it was given, the same shared node.

use std::rc::Rc;
use vstd::prelude::*;
use crate::binder::agg_call::agg_calls_view;
use crate::binder::agg_call::AggCallView;
use crate::binder::agg_call::BoundAggCall;
use crate::binder::expression::clone_exprs;
use crate::binder::expression::exprs_view;
use crate::binder::expression::BoundExpr;
use crate::binder::expression::ExprView;
use crate::binder::statement::order_bys_view;
use crate::binder::statement::BoundJoinConstraint;
use crate::binder::statement::BoundJoinOperator;
use crate::binder::statement::BoundOrderBy;
use crate::binder::statement::OrderByView;
use crate::logical_planner::only_child;
use crate::logical_planner::LogicalAggregate;
use crate::logical_planner::LogicalCopyFromFile;
use crate::logical_planner::LogicalCopyToFile;
use crate::logical_planner::LogicalCreateTable;
use crate::logical_planner::LogicalDelete;
use crate::logical_planner::LogicalDrop;
use crate::logical_planner::LogicalExplain;
use crate::logical_planner::LogicalFilter;
use crate::logical_planner::LogicalGet;
use crate::logical_planner::LogicalInsert;
use crate::logical_planner::LogicalJoin;
use crate::logical_planner::LogicalLimit;
use crate::logical_planner::LogicalOrder;
use crate::logical_planner::LogicalPlan;
use crate::logical_planner::LogicalPlanRef;
use crate::logical_planner::LogicalPlanTrait;
use crate::logical_planner::LogicalProjection;
use crate::logical_planner::LogicalValues;
use crate::logical_planner::PlanView;

verus! {

/// A rewrite rule. It may keep a state, which each rewritten expression moves
/// on.
pub trait PlanRewriter: Sized {
    /// What the rule, in this state, makes of an expression. A rule that
    /// says nothing else leaves the expression as it is.
    open spec fn rewritten(&self, expr: ExprView) -> ExprView {
        expr
    }

    /// The state of the rule after it has rewritten an expression. A rule
    /// that says nothing else keeps its state.
    open spec fn advanced(&self, expr: ExprView) -> Self {
        *self
    }

    /// Rewrites one expression.
    fn rewrite_expr(&mut self, expr: BoundExpr) -> (result: BoundExpr)
        ensures
            result@ == old(self).rewritten(expr@),
            *final(self) == old(self).advanced(expr@),
    ;
}

/// The rule that leaves every expression as it is.
#[derive(Clone, Copy, Debug, Default, PartialEq, Eq, Structural)]
pub struct NoRewrite;

impl PlanRewriter for NoRewrite {
    fn rewrite_expr(&mut self, expr: BoundExpr) -> (result: BoundExpr) {
        expr
    }
}

/// The first `n` expressions of a list after the rule has gone over them in
/// order, and the rule's state then.
pub open spec fn exprs_rewritten<R: PlanRewriter>(rule: R, exprs: Seq<ExprView>, n: nat) -> (
    Seq<ExprView>,
    R,
)
    decreases n,
{
    if n == 0 {
        (Seq::empty(), rule)
    } else {
        let (done, rule) = exprs_rewritten(rule, exprs, (n - 1) as nat);
        (done.push(rule.rewritten(exprs[n - 1])), rule.advanced(exprs[n - 1]))
    }
}

/// The first `n` aggregate calls of a list after the rule has gone over the
/// arguments of each in order, and the rule's state then.
pub open spec fn agg_calls_rewritten<R: PlanRewriter>(rule: R, calls: Seq<AggCallView>, n: nat) -> (
    Seq<AggCallView>,
    R,
)
    decreases n,
{
    if n == 0 {
        (Seq::empty(), rule)
    } else {
        let (done, rule) = agg_calls_rewritten(rule, calls, (n - 1) as nat);
        let call = calls[n - 1];
        let (args, rule) = exprs_rewritten(rule, call.args, call.args.len());
        (done.push(AggCallView { kind: call.kind, args, return_type: call.return_type }), rule)
    }
}

/// The first `n` keys of an ordering after the rule has gone over their
/// expressions in order, and the rule's state then.
pub open spec fn order_bys_rewritten<R: PlanRewriter>(rule: R, keys: Seq<OrderByView>, n: nat) -> (
    Seq<OrderByView>,
    R,
)
    decreases n,
{
    if n == 0 {
        (Seq::empty(), rule)
    } else {
        let (done, rule) = order_bys_rewritten(rule, keys, (n - 1) as nat);
        let key = keys[n - 1];
        (
            done.push(OrderByView { expr: rule.rewritten(key.expr), descending: key.descending }),
            rule.advanced(key.expr),
        )
    }
}

/// What the traversal makes of a plan, and the rule's state then. `None`
/// stands for the plan as it was given.
///
/// A node without children or expressions stays. A node that only passes
/// rows on is built anew over its child where the child was, and stays where
/// it was not. A join, a projection, a filter, an ordering and an aggregation
/// are always built anew: over their rewritten children, with their
/// expressions as the rule leaves them. Of an aggregation, the arguments of
/// the calls go to the rule; the group keys do not.
pub open spec fn plan_rewritten_inner<R: PlanRewriter>(rule: R, plan: PlanView) -> (
    Option<PlanView>,
    R,
)
    decreases plan, 0nat,
{
    match plan {
        PlanView::Insert { child, .. } | PlanView::Limit { child, .. } | PlanView::Explain {
            child,
        } | PlanView::Delete { child, .. } | PlanView::CopyToFile { child, .. } => {
            let (child, rule) = plan_rewritten_inner(rule, *child);
            match child {
                Some(child) => (Some(plan.with_children(seq![child])), rule),
                None => (None, rule),
            }
        },
        PlanView::Join { left_plan, right_plan, join_op } => {
            let (left, rule) = plan_rewritten(rule, *left_plan);
            let (right, rule) = plan_rewritten(rule, *right_plan);
            (
                Some(
                    PlanView::Join {
                        left_plan: Box::new(left),
                        right_plan: Box::new(right),
                        join_op: join_op.with_condition(rule.rewritten(join_op.condition())),
                    },
                ),
                rule.advanced(join_op.condition()),
            )
        },
        PlanView::Projection { project_expressions, child } => {
            let (child, rule) = plan_rewritten(rule, *child);
            let (project_expressions, rule) = exprs_rewritten(
                rule,
                project_expressions,
                project_expressions.len(),
            );
            (Some(PlanView::Projection { project_expressions, child: Box::new(child) }), rule)
        },
        PlanView::Filter { expr, child } => {
            let (child, rule) = plan_rewritten(rule, *child);
            (
                Some(PlanView::Filter { expr: rule.rewritten(expr), child: Box::new(child) }),
                rule.advanced(expr),
            )
        },
        PlanView::Order { comparators, child } => {
            let (child, rule) = plan_rewritten(rule, *child);
            let (comparators, rule) = order_bys_rewritten(rule, comparators, comparators.len());
            (Some(PlanView::Order { comparators, child: Box::new(child) }), rule)
        },
        PlanView::Aggregate { agg_calls, group_keys, child } => {
            let (child, rule) = plan_rewritten(rule, *child);
            let (agg_calls, rule) = agg_calls_rewritten(rule, agg_calls, agg_calls.len());
            (Some(PlanView::Aggregate { agg_calls, group_keys, child: Box::new(child) }), rule)
        },
        _ => (None, rule),
    }
}

/// The plan that the traversal hands back, and the rule's state then.
pub open spec fn plan_rewritten<R: PlanRewriter>(rule: R, plan: PlanView) -> (PlanView, R)
    decreases plan, 1nat,
{
    let (changed, rule) = plan_rewritten_inner(rule, plan);
    match changed {
        Some(changed) => (changed, rule),
        None => (plan, rule),
    }
}

/// Whether a plan holds no node that the traversal builds anew: no join,
/// projection, filter, ordering or aggregation on the way down from the root.
pub open spec fn passes_through(plan: PlanView) -> bool
    decreases plan,
{
    match plan {
        PlanView::Insert { child, .. } | PlanView::Limit { child, .. } | PlanView::Explain {
            child,
        } | PlanView::Delete { child, .. } | PlanView::CopyToFile { child, .. } => passes_through(
            *child,
        ),
        PlanView::Join { .. } | PlanView::Projection { .. } | PlanView::Filter { .. }
        | PlanView::Order { .. } | PlanView::Aggregate { .. } => false,
        _ => true,
    }
}

/// Whatever the rule, the traversal leaves a plan as it was given exactly
/// where the plan holds no node that is built anew, and the rule's state
/// with it.
pub proof fn lemma_untouched_plan_is_kept<R: PlanRewriter>(rule: R, plan: PlanView)
    ensures
        plan_rewritten_inner(rule, plan).0 is None <==> passes_through(plan),
        passes_through(plan) ==> plan_rewritten(rule, plan) == (plan, rule),
    decreases plan,
{
    match plan {
        PlanView::Insert { child, .. } | PlanView::Limit { child, .. } | PlanView::Explain {
            child,
        } | PlanView::Delete { child, .. } | PlanView::CopyToFile { child, .. } => {
            lemma_untouched_plan_is_kept(rule, *child);
        },
        _ => {},
    }
}

/// A rule that changes no expression leaves a list of expressions as it was.
pub proof fn lemma_unchanged_exprs<R: PlanRewriter>(rule: R, exprs: Seq<ExprView>, n: nat)
    requires
        forall|r: R, e: ExprView| #[trigger] r.rewritten(e) == e,
        n <= exprs.len(),
    ensures
        exprs_rewritten(rule, exprs, n).0 == exprs.take(n as int),
    decreases n,
{
    if n > 0 {
        lemma_unchanged_exprs(rule, exprs, (n - 1) as nat);
        assert(exprs.take(n as int) =~= exprs.take(n - 1).push(exprs[n - 1]));
    } else {
        assert(exprs.take(0) =~= Seq::<ExprView>::empty());
    }
}

/// A rule that changes no expression leaves a list of aggregate calls as it
/// was.
pub proof fn lemma_unchanged_agg_calls<R: PlanRewriter>(rule: R, calls: Seq<AggCallView>, n: nat)
    requires
        forall|r: R, e: ExprView| #[trigger] r.rewritten(e) == e,
        n <= calls.len(),
    ensures
        agg_calls_rewritten(rule, calls, n).0 == calls.take(n as int),
    decreases n,
{
    if n > 0 {
        lemma_unchanged_agg_calls(rule, calls, (n - 1) as nat);
        let call = calls[n - 1];
        let before = agg_calls_rewritten(rule, calls, (n - 1) as nat).1;
        lemma_unchanged_exprs(before, call.args, call.args.len());
        assert(call.args.take(call.args.len() as int) =~= call.args);
        assert(calls.take(n as int) =~= calls.take(n - 1).push(call));
    } else {
        assert(calls.take(0) =~= Seq::<AggCallView>::empty());
    }
}

/// A rule that changes no expression leaves the keys of an ordering as they
/// were.
pub proof fn lemma_unchanged_order_bys<R: PlanRewriter>(rule: R, keys: Seq<OrderByView>, n: nat)
    requires
        forall|r: R, e: ExprView| #[trigger] r.rewritten(e) == e,
        n <= keys.len(),
    ensures
        order_bys_rewritten(rule, keys, n).0 == keys.take(n as int),
    decreases n,
{
    if n > 0 {
        lemma_unchanged_order_bys(rule, keys, (n - 1) as nat);
        assert(keys.take(n as int) =~= keys.take(n - 1).push(keys[n - 1]));
    } else {
        assert(keys.take(0) =~= Seq::<OrderByView>::empty());
    }
}

/// Under a rule that changes no expression, in whatever state, the traversal
/// hands back a plan of the same value as the one it was given.
pub proof fn lemma_unchanged_plan<R: PlanRewriter>(rule: R, plan: PlanView)
    requires
        forall|r: R, e: ExprView| #[trigger] r.rewritten(e) == e,
    ensures
        plan_rewritten(rule, plan).0 == plan,
    decreases plan,
{
    match plan {
        PlanView::Insert { child, .. } | PlanView::Limit { child, .. } | PlanView::Explain {
            child,
        } | PlanView::Delete { child, .. } | PlanView::CopyToFile { child, .. } => {
            lemma_unchanged_plan(rule, *child);
            assert(plan.children() =~= seq![*child]);
        },
        PlanView::Join { left_plan, right_plan, join_op } => {
            lemma_unchanged_plan(rule, *left_plan);
            lemma_unchanged_plan(plan_rewritten(rule, *left_plan).1, *right_plan);
        },
        PlanView::Projection { project_expressions, child } => {
            lemma_unchanged_plan(rule, *child);
            lemma_unchanged_exprs(
                plan_rewritten(rule, *child).1,
                project_expressions,
                project_expressions.len(),
            );
            assert(project_expressions.take(project_expressions.len() as int)
                =~= project_expressions);
        },
        PlanView::Filter { expr, child } => {
            lemma_unchanged_plan(rule, *child);
        },
        PlanView::Order { comparators, child } => {
            lemma_unchanged_plan(rule, *child);
            lemma_unchanged_order_bys(
                plan_rewritten(rule, *child).1,
                comparators,
                comparators.len(),
            );
            assert(comparators.take(comparators.len() as int) =~= comparators);
        },
        PlanView::Aggregate { agg_calls, group_keys, child } => {
            lemma_unchanged_plan(rule, *child);
            lemma_unchanged_agg_calls(plan_rewritten(rule, *child).1, agg_calls, agg_calls.len());
            assert(agg_calls.take(agg_calls.len() as int) =~= agg_calls);
        },
        _ => {},
    }
}

/// The view of a plan that may have stayed as it was.
pub open spec fn changed_view(changed: Option<LogicalPlanRef>) -> Option<PlanView> {
    match changed {
        Some(plan) => Some(plan@),
        None => None,
    }
}

/// Rewrites a plan. Where the traversal builds no node anew, the result is
/// the plan that was given: the same shared node, not a copy.
pub fn rewrite_plan<R: PlanRewriter>(rule: &mut R, plan: LogicalPlanRef) -> (result: LogicalPlanRef)
    ensures
        result@ == plan_rewritten(*old(rule), plan@).0,
        *final(rule) == plan_rewritten(*old(rule), plan@).1,
        passes_through(plan@) ==> result == plan && *final(rule) == *old(rule),
    decreases plan, 1nat,
{
    proof {
        lemma_untouched_plan_is_kept(*rule, plan@);
    }
    match rewrite_plan_inner(rule, plan.clone()) {
        Some(new_plan) => new_plan,
        None => plan,
    }
}

/// Rewrites a plan, and hands back nothing where the plan needs no change.
pub fn rewrite_plan_inner<R: PlanRewriter>(rule: &mut R, plan: LogicalPlanRef) -> (result: Option<
    LogicalPlanRef,
>)
    ensures
        changed_view(result) == plan_rewritten_inner(*old(rule), plan@).0,
        *final(rule) == plan_rewritten_inner(*old(rule), plan@).1,
    decreases plan, 0nat,
{
    match &*plan {
        LogicalPlan::LogicalDummy(_) => None,
        LogicalPlan::LogicalCreateTable(plan) => rewrite_create_table(rule, plan),
        LogicalPlan::LogicalDrop(plan) => rewrite_drop(rule, plan),
        LogicalPlan::LogicalInsert(plan) => rewrite_insert(rule, plan),
        LogicalPlan::LogicalJoin(plan) => rewrite_join(rule, plan),
        LogicalPlan::LogicalGet(plan) => rewrite_get(rule, plan),
        LogicalPlan::LogicalProjection(plan) => rewrite_projection(rule, plan),
        LogicalPlan::LogicalFilter(plan) => rewrite_filter(rule, plan),
        LogicalPlan::LogicalOrder(plan) => rewrite_order(rule, plan),
        LogicalPlan::LogicalLimit(plan) => rewrite_limit(rule, plan),
        LogicalPlan::LogicalExplain(plan) => rewrite_explain(rule, plan),
        LogicalPlan::LogicalAggregate(plan) => rewrite_aggregate(rule, plan),
        LogicalPlan::LogicalDelete(plan) => rewrite_delete(rule, plan),
        LogicalPlan::LogicalValues(plan) => rewrite_values(rule, plan),
        LogicalPlan::LogicalCopyFromFile(plan) => rewrite_copy_from_file(rule, plan),
        LogicalPlan::LogicalCopyToFile(plan) => rewrite_copy_to_file(rule, plan),
    }
}

/// A table creation holds nothing to rewrite.
pub fn rewrite_create_table<R: PlanRewriter>(rule: &mut R, plan: &LogicalCreateTable) -> (result:
    Option<LogicalPlanRef>)
    ensures
        result is None,
        *final(rule) == *old(rule),
{
    None
}

/// A drop holds nothing to rewrite.
pub fn rewrite_drop<R: PlanRewriter>(rule: &mut R, plan: &LogicalDrop) -> (result: Option<
    LogicalPlanRef,
>)
    ensures
        result is None,
        *final(rule) == *old(rule),
{
    None
}

/// A scan holds nothing to rewrite.
pub fn rewrite_get<R: PlanRewriter>(rule: &mut R, plan: &LogicalGet) -> (result: Option<
    LogicalPlanRef,
>)
    ensures
        result is None,
        *final(rule) == *old(rule),
{
    None
}

/// Rows of values are left as they are.
pub fn rewrite_values<R: PlanRewriter>(rule: &mut R, plan: &LogicalValues) -> (result: Option<
    LogicalPlanRef,
>)
    ensures
        result is None,
        *final(rule) == *old(rule),
{
    None
}

/// The reading of a file holds nothing to rewrite.
pub fn rewrite_copy_from_file<R: PlanRewriter>(rule: &mut R, plan: &LogicalCopyFromFile) -> (result:
    Option<LogicalPlanRef>)
    ensures
        result is None,
        *final(rule) == *old(rule),
{
    None
}

/// An insertion is built anew where its child was.
pub fn rewrite_insert<R: PlanRewriter>(rule: &mut R, plan: &LogicalInsert) -> (result: Option<
    LogicalPlanRef,
>)
    ensures
        changed_view(result) == plan_rewritten_inner(*old(rule), plan@).0,
        *final(rule) == plan_rewritten_inner(*old(rule), plan@).1,
    decreases plan, 0nat,
{
    if let Some(child) = rewrite_plan_inner(rule, plan.child.clone()) {
        let new_plan = plan.clone_with_children(only_child(child));
        return Some(new_plan);
    }
    None
}

/// A limit is built anew where its child was.
pub fn rewrite_limit<R: PlanRewriter>(rule: &mut R, plan: &LogicalLimit) -> (result: Option<
    LogicalPlanRef,
>)
    ensures
        changed_view(result) == plan_rewritten_inner(*old(rule), plan@).0,
        *final(rule) == plan_rewritten_inner(*old(rule), plan@).1,
    decreases plan, 0nat,
{
    if let Some(child) = rewrite_plan_inner(rule, plan.child.clone()) {
        let new_plan = plan.clone_with_children(only_child(child));
        return Some(new_plan);
    }
    None
}

/// An explanation is built anew where its child was.
pub fn rewrite_explain<R: PlanRewriter>(rule: &mut R, plan: &LogicalExplain) -> (result: Option<
    LogicalPlanRef,
>)
    ensures
        changed_view(result) == plan_rewritten_inner(*old(rule), plan@).0,
        *final(rule) == plan_rewritten_inner(*old(rule), plan@).1,
    decreases plan, 0nat,
{
    if let Some(child) = rewrite_plan_inner(rule, plan.child.clone()) {
        let new_plan = plan.clone_with_children(only_child(child));
        return Some(new_plan);
    }
    None
}

/// A deletion is built anew where its child was.
pub fn rewrite_delete<R: PlanRewriter>(rule: &mut R, plan: &LogicalDelete) -> (result: Option<
    LogicalPlanRef,
>)
    ensures
        changed_view(result) == plan_rewritten_inner(*old(rule), plan@).0,
        *final(rule) == plan_rewritten_inner(*old(rule), plan@).1,
    decreases plan, 0nat,
{
    if let Some(child) = rewrite_plan_inner(rule, plan.child.clone()) {
        let new_plan = plan.clone_with_children(only_child(child));
        return Some(new_plan);
    }
    None
}

/// The writing of a file is built anew where its child was.
pub fn rewrite_copy_to_file<R: PlanRewriter>(rule: &mut R, plan: &LogicalCopyToFile) -> (result:
    Option<LogicalPlanRef>)
    ensures
        changed_view(result) == plan_rewritten_inner(*old(rule), plan@).0,
        *final(rule) == plan_rewritten_inner(*old(rule), plan@).1,
    decreases plan, 0nat,
{
    if let Some(child) = rewrite_plan_inner(rule, plan.child.clone()) {
        let new_plan = plan.clone_with_children(only_child(child));
        return Some(new_plan);
    }
    None
}

/// A join is built anew over its rewritten sides, left before right, with its
/// condition as the rule leaves it.
pub fn rewrite_join<R: PlanRewriter>(rule: &mut R, plan: &LogicalJoin) -> (result: Option<
    LogicalPlanRef,
>)
    ensures
        changed_view(result) == plan_rewritten_inner(*old(rule), plan@).0,
        *final(rule) == plan_rewritten_inner(*old(rule), plan@).1,
    decreases plan, 0nat,
{
    let left_plan = rewrite_plan(rule, plan.left_plan.clone());
    let right_plan = rewrite_plan(rule, plan.right_plan.clone());
    let join_op = match plan.join_op.clone() {
        BoundJoinOperator::Inner(BoundJoinConstraint::On(expr)) => BoundJoinOperator::Inner(
            BoundJoinConstraint::On(rule.rewrite_expr(expr)),
        ),
        BoundJoinOperator::LeftOuter(BoundJoinConstraint::On(expr)) => BoundJoinOperator::LeftOuter(
            BoundJoinConstraint::On(rule.rewrite_expr(expr)),
        ),
        BoundJoinOperator::RightOuter(BoundJoinConstraint::On(expr)) => {
            BoundJoinOperator::RightOuter(BoundJoinConstraint::On(rule.rewrite_expr(expr)))
        },
    };
    Some(Rc::new(LogicalPlan::LogicalJoin(LogicalJoin { left_plan, right_plan, join_op })))
}

/// Rewrites the expressions of a list in order.
pub fn rewrite_exprs<R: PlanRewriter>(rule: &mut R, exprs: &Vec<BoundExpr>) -> (result: Vec<
    BoundExpr,
>)
    ensures
        exprs_view(result@) == exprs_rewritten(
            *old(rule),
            exprs_view(exprs@),
            exprs.len() as nat,
        ).0,
        *final(rule) == exprs_rewritten(*old(rule), exprs_view(exprs@), exprs.len() as nat).1,
{
    let mut result: Vec<BoundExpr> = Vec::new();
    let mut i: usize = 0;
    while i < exprs.len()
        invariant
            i <= exprs.len(),
            exprs_view(result@) == exprs_rewritten(*old(rule), exprs_view(exprs@), i as nat).0,
            *rule == exprs_rewritten(*old(rule), exprs_view(exprs@), i as nat).1,
        decreases exprs.len() - i,
    {
        let ghost before = exprs_view(result@);
        let expr = rule.rewrite_expr(exprs[i].clone());
        result.push(expr);
        assert(exprs_view(result@) =~= before.push(expr@));
        i += 1;
    }
    result
}

/// A projection is built anew over its rewritten child, with its expressions as
/// the rule leaves them.
pub fn rewrite_projection<R: PlanRewriter>(rule: &mut R, plan: &LogicalProjection) -> (result:
    Option<LogicalPlanRef>)
    ensures
        changed_view(result) == plan_rewritten_inner(*old(rule), plan@).0,
        *final(rule) == plan_rewritten_inner(*old(rule), plan@).1,
    decreases plan, 0nat,
{
    let child = rewrite_plan(rule, plan.child.clone());
    let project_expressions = rewrite_exprs(rule, &plan.project_expressions);
    Some(
        Rc::new(
            LogicalPlan::LogicalProjection(LogicalProjection { child, project_expressions }),
        ),
    )
}

/// A filter is built anew over its rewritten child, with its predicate as the
/// rule leaves it.
pub fn rewrite_filter<R: PlanRewriter>(rule: &mut R, plan: &LogicalFilter) -> (result: Option<
    LogicalPlanRef,
>)
    ensures
        changed_view(result) == plan_rewritten_inner(*old(rule), plan@).0,
        *final(rule) == plan_rewritten_inner(*old(rule), plan@).1,
    decreases plan, 0nat,
{
    let child = rewrite_plan(rule, plan.child.clone());
    let expr = rule.rewrite_expr(plan.expr.clone());
    Some(Rc::new(LogicalPlan::LogicalFilter(LogicalFilter { child, expr })))
}

/// An ordering is built anew over its rewritten child, with the expressions of
/// its keys as the rule leaves them.
pub fn rewrite_order<R: PlanRewriter>(rule: &mut R, plan: &LogicalOrder) -> (result: Option<
    LogicalPlanRef,
>)
    ensures
        changed_view(result) == plan_rewritten_inner(*old(rule), plan@).0,
        *final(rule) == plan_rewritten_inner(*old(rule), plan@).1,
    decreases plan, 0nat,
{
    let child = rewrite_plan(rule, plan.child.clone());
    let ghost entered = *rule;
    let ghost keys = order_bys_view(plan.comparators@);
    let mut comparators: Vec<BoundOrderBy> = Vec::new();
    let mut i: usize = 0;
    while i < plan.comparators.len()
        invariant
            i <= plan.comparators.len(),
            keys == order_bys_view(plan.comparators@),
            order_bys_view(comparators@) == order_bys_rewritten(entered, keys, i as nat).0,
            *rule == order_bys_rewritten(entered, keys, i as nat).1,
        decreases plan.comparators.len() - i,
    {
        let ghost before = order_bys_view(comparators@);
        let orderby = plan.comparators[i].clone();
        let key = BoundOrderBy {
            expr: rule.rewrite_expr(orderby.expr),
            descending: orderby.descending,
        };
        comparators.push(key);
        assert(order_bys_view(comparators@) =~= before.push(key@));
        i += 1;
    }
    Some(Rc::new(LogicalPlan::LogicalOrder(LogicalOrder { child, comparators })))
}

/// An aggregation is built anew over its rewritten child. The arguments of its
/// calls go to the rule; its group keys stay.
pub fn rewrite_aggregate<R: PlanRewriter>(rule: &mut R, plan: &LogicalAggregate) -> (result: Option<
    LogicalPlanRef,
>)
    ensures
        changed_view(result) == plan_rewritten_inner(*old(rule), plan@).0,
        *final(rule) == plan_rewritten_inner(*old(rule), plan@).1,
    decreases plan, 0nat,
{
    let child = rewrite_plan(rule, plan.child.clone());
    let ghost entered = *rule;
    let ghost calls = agg_calls_view(plan.agg_calls@);
    let mut agg_calls: Vec<BoundAggCall> = Vec::new();
    let mut i: usize = 0;
    while i < plan.agg_calls.len()
        invariant
            i <= plan.agg_calls.len(),
            calls == agg_calls_view(plan.agg_calls@),
            agg_calls_view(agg_calls@) == agg_calls_rewritten(entered, calls, i as nat).0,
            *rule == agg_calls_rewritten(entered, calls, i as nat).1,
        decreases plan.agg_calls.len() - i,
    {
        let ghost before = agg_calls_view(agg_calls@);
        let agg = &plan.agg_calls[i];
        let call = BoundAggCall {
            kind: agg.kind,
            args: rewrite_exprs(rule, &agg.args),
            return_type: agg.return_type,
        };
        agg_calls.push(call);
        assert(agg_calls_view(agg_calls@) =~= before.push(call@));
        i += 1;
    }
    let group_keys = clone_exprs(&plan.group_keys);
    Some(
        Rc::new(LogicalPlan::LogicalAggregate(LogicalAggregate { child, agg_calls, group_keys })),
    )
}

} // verus!
