//! What holds of a resolved plan.
//!
//! After resolution no expression of the plan refers to a column by name, and
//! no aggregate call stands outside the call list of an aggregation. The
//! positions in the condition of a join lie within the columns of its two
//! sides, those of the right side after those of the left.

use vstd::prelude::*;
use crate::binder::expression::ExprView;
use crate::logical_planner::PlanView;
use crate::physical_planner::input_ref_resolver::all_resolve;
use crate::physical_planner::input_ref_resolver::lemma_first_index;
use crate::physical_planner::input_ref_resolver::output_bindings;
use crate::physical_planner::input_ref_resolver::position;
use crate::physical_planner::input_ref_resolver::resolvable;
use crate::physical_planner::input_ref_resolver::resolved_agg_calls;
use crate::physical_planner::input_ref_resolver::resolved_expr;
use crate::physical_planner::input_ref_resolver::resolved_exprs;
use crate::physical_planner::input_ref_resolver::resolved_order_bys;
use crate::physical_planner::input_ref_resolver::resolved_plan;
use crate::physical_planner::input_ref_resolver::resolved_rows;
use crate::physical_planner::input_ref_resolver::resolves;
use crate::physical_planner::input_ref_resolver::select_agg_count;
use crate::physical_planner::input_ref_resolver::select_agg_count_upto;
use crate::physical_planner::input_ref_resolver::select_list_resolved;
use crate::physical_planner::input_ref_resolver::select_resolved;
use crate::physical_planner::input_ref_resolver::Bindings;

verus! {

/// Whether an expression holds no reference to a column by name, at any
/// depth.
pub open spec fn free_of_column_refs(expr: ExprView) -> bool
    decreases expr,
{
    match expr {
        ExprView::ColumnRef { .. } => false,
        ExprView::BinaryOp { left, right, .. } => free_of_column_refs(*left)
            && free_of_column_refs(*right),
        ExprView::UnaryOp { expr, .. } => free_of_column_refs(*expr),
        ExprView::TypeCast { expr, .. } => free_of_column_refs(*expr),
        ExprView::AggCall(call) => forall|i: int|
            0 <= i < call.args.len() ==> free_of_column_refs(#[trigger] call.args[i]),
        ExprView::IsNull { expr } => free_of_column_refs(*expr),
        ExprView::Alias { expr, .. } => free_of_column_refs(*expr),
        _ => true,
    }
}

/// Whether an expression holds no aggregate call.
pub open spec fn free_of_agg_calls(expr: ExprView) -> bool
    decreases expr,
{
    match expr {
        ExprView::AggCall(_) => false,
        ExprView::BinaryOp { left, right, .. } => free_of_agg_calls(*left) && free_of_agg_calls(
            *right,
        ),
        ExprView::UnaryOp { expr, .. } => free_of_agg_calls(*expr),
        ExprView::TypeCast { expr, .. } => free_of_agg_calls(*expr),
        ExprView::IsNull { expr } => free_of_agg_calls(*expr),
        ExprView::Alias { expr, .. } => free_of_agg_calls(*expr),
        _ => true,
    }
}

/// Whether every expression of a list holds no reference to a column by name.
pub open spec fn all_free_of_column_refs(exprs: Seq<ExprView>) -> bool {
    forall|i: int| 0 <= i < exprs.len() ==> free_of_column_refs(#[trigger] exprs[i])
}

/// Whether every expression of a list holds no aggregate call.
pub open spec fn all_free_of_agg_calls(exprs: Seq<ExprView>) -> bool {
    forall|i: int| 0 <= i < exprs.len() ==> free_of_agg_calls(#[trigger] exprs[i])
}

/// Whether no expression of a plan refers to a column by name.
pub open spec fn plan_free_of_column_refs(plan: PlanView) -> bool
    decreases plan,
{
    match plan {
        PlanView::Values { values, .. } => forall|i: int|
            0 <= i < values.len() ==> all_free_of_column_refs(#[trigger] values[i]),
        PlanView::Join { left_plan, right_plan, join_op } => {
            &&& plan_free_of_column_refs(*left_plan)
            &&& plan_free_of_column_refs(*right_plan)
            &&& free_of_column_refs(join_op.condition())
        },
        PlanView::Filter { expr, child } => plan_free_of_column_refs(*child)
            && free_of_column_refs(expr),
        PlanView::Order { comparators, child } => {
            &&& plan_free_of_column_refs(*child)
            &&& forall|i: int|
                0 <= i < comparators.len() ==> free_of_column_refs((#[trigger] comparators[i]).expr)
        },
        PlanView::Projection { project_expressions, child } => plan_free_of_column_refs(*child)
            && all_free_of_column_refs(project_expressions),
        PlanView::Aggregate { agg_calls, group_keys, child } => {
            &&& plan_free_of_column_refs(*child)
            &&& forall|i: int|
                0 <= i < agg_calls.len() ==> all_free_of_column_refs((#[trigger] agg_calls[i]).args)
            &&& all_free_of_column_refs(group_keys)
        },
        PlanView::Limit { child, .. } | PlanView::Insert { child, .. } | PlanView::Explain {
            child,
        } | PlanView::Delete { child, .. } | PlanView::CopyToFile { child, .. } => {
            plan_free_of_column_refs(*child)
        },
        _ => true,
    }
}

/// Whether no aggregate call of a plan stands outside the call list of an
/// aggregation.
pub open spec fn plan_free_of_bare_agg_calls(plan: PlanView) -> bool
    decreases plan,
{
    match plan {
        PlanView::Values { values, .. } => forall|i: int|
            0 <= i < values.len() ==> all_free_of_agg_calls(#[trigger] values[i]),
        PlanView::Join { left_plan, right_plan, join_op } => {
            &&& plan_free_of_bare_agg_calls(*left_plan)
            &&& plan_free_of_bare_agg_calls(*right_plan)
            &&& free_of_agg_calls(join_op.condition())
        },
        PlanView::Filter { expr, child } => plan_free_of_bare_agg_calls(*child)
            && free_of_agg_calls(expr),
        PlanView::Order { comparators, child } => {
            &&& plan_free_of_bare_agg_calls(*child)
            &&& forall|i: int|
                0 <= i < comparators.len() ==> free_of_agg_calls((#[trigger] comparators[i]).expr)
        },
        PlanView::Projection { project_expressions, child } => plan_free_of_bare_agg_calls(*child)
            && all_free_of_agg_calls(project_expressions),
        PlanView::Aggregate { group_keys, child, .. } => plan_free_of_bare_agg_calls(*child)
            && all_free_of_agg_calls(group_keys),
        PlanView::Limit { child, .. } | PlanView::Insert { child, .. } | PlanView::Explain {
            child,
        } | PlanView::Delete { child, .. } | PlanView::CopyToFile { child, .. } => {
            plan_free_of_bare_agg_calls(*child)
        },
        _ => true,
    }
}

/// Whether the aggregate calls of a plan stand only where resolution deals
/// with them: in the call list of an aggregation, and in the select list of
/// a projection directly over an aggregation.
pub open spec fn aggregates_in_place(plan: PlanView) -> bool
    decreases plan,
{
    match plan {
        PlanView::Values { values, .. } => forall|i: int|
            0 <= i < values.len() ==> all_free_of_agg_calls(#[trigger] values[i]),
        PlanView::Join { left_plan, right_plan, join_op } => {
            &&& aggregates_in_place(*left_plan)
            &&& aggregates_in_place(*right_plan)
            &&& free_of_agg_calls(join_op.condition())
        },
        PlanView::Filter { expr, child } => aggregates_in_place(*child) && free_of_agg_calls(expr),
        PlanView::Order { comparators, child } => {
            &&& aggregates_in_place(*child)
            &&& forall|i: int|
                0 <= i < comparators.len() ==> free_of_agg_calls((#[trigger] comparators[i]).expr)
        },
        PlanView::Projection { project_expressions, child } => {
            &&& aggregates_in_place(*child)
            &&& *child is Aggregate || all_free_of_agg_calls(project_expressions)
        },
        PlanView::Aggregate { group_keys, child, .. } => aggregates_in_place(*child)
            && all_free_of_agg_calls(group_keys),
        PlanView::Limit { child, .. } | PlanView::Insert { child, .. } | PlanView::Explain {
            child,
        } | PlanView::Delete { child, .. } | PlanView::CopyToFile { child, .. } => {
            aggregates_in_place(*child)
        },
        _ => true,
    }
}

/// An expression whose references all have a binding holds no reference to a
/// column by name once it is resolved.
pub proof fn lemma_resolved_expr_free_of_column_refs(expr: ExprView, bindings: Bindings)
    requires
        resolves(expr, bindings),
    ensures
        free_of_column_refs(resolved_expr(expr, bindings)),
    decreases expr,
{
    match expr {
        ExprView::BinaryOp { left, right, .. } => {
            lemma_resolved_expr_free_of_column_refs(*left, bindings);
            lemma_resolved_expr_free_of_column_refs(*right, bindings);
        },
        ExprView::UnaryOp { expr, .. } => lemma_resolved_expr_free_of_column_refs(*expr, bindings),
        ExprView::TypeCast { expr, .. } => lemma_resolved_expr_free_of_column_refs(*expr, bindings),
        ExprView::IsNull { expr } => lemma_resolved_expr_free_of_column_refs(*expr, bindings),
        ExprView::Alias { expr, .. } => lemma_resolved_expr_free_of_column_refs(*expr, bindings),
        ExprView::AggCall(call) => {
            let args = resolved_expr(expr, bindings)->AggCall_0.args;
            assert forall|i: int| 0 <= i < args.len() implies free_of_column_refs(
                #[trigger] args[i],
            ) by {
                assert(resolves(call.args[i], bindings));
                lemma_resolved_expr_free_of_column_refs(call.args[i], bindings);
            }
        },
        _ => {},
    }
}

/// A list of expressions whose references all have a binding holds no
/// reference to a column by name once it is resolved.
pub proof fn lemma_resolved_exprs_free_of_column_refs(exprs: Seq<ExprView>, bindings: Bindings)
    requires
        all_resolve(exprs, bindings),
    ensures
        all_free_of_column_refs(resolved_exprs(exprs, bindings)),
{
    assert forall|i: int| 0 <= i < exprs.len() implies free_of_column_refs(
        #[trigger] resolved_exprs(exprs, bindings)[i],
    ) by {
        assert(resolves(exprs[i], bindings));
        lemma_resolved_expr_free_of_column_refs(exprs[i], bindings);
    }
}

/// After resolution, no expression of a plan refers to a column by name.
pub proof fn lemma_resolved_plan_free_of_column_refs(plan: PlanView, entering: Bindings)
    requires
        resolvable(plan, entering),
    ensures
        plan_free_of_column_refs(resolved_plan(plan, entering)),
    decreases plan,
{
    match plan {
        PlanView::Values { values, .. } => {
            let rows = resolved_rows(values, entering);
            assert forall|i: int| 0 <= i < rows.len() implies all_free_of_column_refs(
                #[trigger] rows[i],
            ) by {
                assert(all_resolve(values[i], entering));
                lemma_resolved_exprs_free_of_column_refs(values[i], entering);
            }
        },
        PlanView::Join { left_plan, right_plan, join_op } => {
            lemma_resolved_plan_free_of_column_refs(*left_plan, entering);
            lemma_resolved_plan_free_of_column_refs(*right_plan, Seq::empty());
            lemma_resolved_expr_free_of_column_refs(
                join_op.condition(),
                output_bindings(plan, entering),
            );
        },
        PlanView::Filter { expr, child } => {
            lemma_resolved_plan_free_of_column_refs(*child, entering);
            lemma_resolved_expr_free_of_column_refs(expr, output_bindings(*child, entering));
        },
        PlanView::Order { comparators, child } => {
            lemma_resolved_plan_free_of_column_refs(*child, entering);
            let bindings = output_bindings(*child, entering);
            let keys = resolved_order_bys(comparators, bindings);
            assert forall|i: int| 0 <= i < keys.len() implies free_of_column_refs(
                (#[trigger] keys[i]).expr,
            ) by {
                assert(resolves(comparators[i].expr, bindings));
                lemma_resolved_expr_free_of_column_refs(comparators[i].expr, bindings);
            }
        },
        PlanView::Projection { project_expressions, child } => {
            lemma_resolved_plan_free_of_column_refs(*child, entering);
            let bindings = output_bindings(*child, entering);
            match *child {
                PlanView::Aggregate { group_keys, .. } => {
                    lemma_resolved_exprs_free_of_column_refs(
                        select_list_resolved(project_expressions, group_keys),
                        bindings,
                    );
                },
                _ => {
                    lemma_resolved_exprs_free_of_column_refs(project_expressions, bindings);
                },
            }
        },
        PlanView::Aggregate { agg_calls, group_keys, child } => {
            lemma_resolved_plan_free_of_column_refs(*child, entering);
            let bindings = output_bindings(*child, entering);
            let calls = resolved_agg_calls(agg_calls, bindings);
            assert forall|i: int| 0 <= i < calls.len() implies all_free_of_column_refs(
                (#[trigger] calls[i]).args,
            ) by {
                assert(all_resolve(agg_calls[i].args, bindings));
                lemma_resolved_exprs_free_of_column_refs(agg_calls[i].args, bindings);
            }
            lemma_resolved_exprs_free_of_column_refs(group_keys, bindings);
        },
        PlanView::Limit { child, .. } | PlanView::Insert { child, .. } | PlanView::Explain {
            child,
        } | PlanView::Delete { child, .. } | PlanView::CopyToFile { child, .. } => {
            lemma_resolved_plan_free_of_column_refs(*child, entering);
        },
        _ => {},
    }
}

/// Resolution of references neither adds an aggregate call to an expression
/// nor takes one out.
pub proof fn lemma_resolved_expr_keeps_agg_calls(expr: ExprView, bindings: Bindings)
    ensures
        free_of_agg_calls(resolved_expr(expr, bindings)) == free_of_agg_calls(expr),
    decreases expr,
{
    match expr {
        ExprView::BinaryOp { left, right, .. } => {
            lemma_resolved_expr_keeps_agg_calls(*left, bindings);
            lemma_resolved_expr_keeps_agg_calls(*right, bindings);
        },
        ExprView::UnaryOp { expr, .. } => lemma_resolved_expr_keeps_agg_calls(*expr, bindings),
        ExprView::TypeCast { expr, .. } => lemma_resolved_expr_keeps_agg_calls(*expr, bindings),
        ExprView::IsNull { expr } => lemma_resolved_expr_keeps_agg_calls(*expr, bindings),
        ExprView::Alias { expr, .. } => lemma_resolved_expr_keeps_agg_calls(*expr, bindings),
        _ => {},
    }
}

/// Resolution of references neither adds an aggregate call to a list of
/// expressions nor takes one out.
pub proof fn lemma_resolved_exprs_keep_agg_calls(exprs: Seq<ExprView>, bindings: Bindings)
    ensures
        all_free_of_agg_calls(resolved_exprs(exprs, bindings)) == all_free_of_agg_calls(exprs),
{
    let resolved = resolved_exprs(exprs, bindings);
    assert forall|i: int| 0 <= i < exprs.len() implies free_of_agg_calls(#[trigger] resolved[i])
        == free_of_agg_calls(exprs[i]) by {
        lemma_resolved_expr_keeps_agg_calls(exprs[i], bindings);
    }
    if all_free_of_agg_calls(exprs) {
        assert forall|i: int| 0 <= i < resolved.len() implies free_of_agg_calls(
            #[trigger] resolved[i],
        ) by {
            assert(free_of_agg_calls(exprs[i]));
        }
    }
    if all_free_of_agg_calls(resolved) {
        assert forall|i: int| 0 <= i < exprs.len() implies free_of_agg_calls(
            #[trigger] exprs[i],
        ) by {
            assert(free_of_agg_calls(resolved[i]));
        }
    }
}

/// A select expression over an aggregation holds no aggregate call once its
/// group keys and calls are taken to positions.
pub proof fn lemma_select_resolved_free_of_agg_calls(
    expr: ExprView,
    keys: Seq<ExprView>,
    start: nat,
)
    ensures
        free_of_agg_calls(select_resolved(expr, keys, start)),
    decreases expr,
{
    if position(keys, expr) is None {
        match expr {
            ExprView::BinaryOp { left, right, .. } => {
                lemma_select_resolved_free_of_agg_calls(*left, keys, start);
                lemma_select_resolved_free_of_agg_calls(
                    *right,
                    keys,
                    start + select_agg_count(*left, keys),
                );
            },
            ExprView::UnaryOp { expr, .. } => lemma_select_resolved_free_of_agg_calls(
                *expr,
                keys,
                start,
            ),
            ExprView::TypeCast { expr, .. } => lemma_select_resolved_free_of_agg_calls(
                *expr,
                keys,
                start,
            ),
            ExprView::IsNull { expr } => lemma_select_resolved_free_of_agg_calls(*expr, keys, start),
            ExprView::Alias { expr, .. } => lemma_select_resolved_free_of_agg_calls(
                *expr,
                keys,
                start,
            ),
            _ => {},
        }
    }
}

/// After resolution, no aggregate call of a plan stands outside the call
/// list of an aggregation, exactly where before resolution the aggregate
/// calls stood only in such lists and in the select lists of projections
/// directly over an aggregation.
pub proof fn lemma_resolved_plan_free_of_bare_agg_calls(plan: PlanView, entering: Bindings)
    ensures
        plan_free_of_bare_agg_calls(resolved_plan(plan, entering)) == aggregates_in_place(plan),
    decreases plan,
{
    match plan {
        PlanView::Values { values, .. } => {
            let rows = resolved_rows(values, entering);
            assert forall|i: int| 0 <= i < values.len() implies all_free_of_agg_calls(
                #[trigger] rows[i],
            ) == all_free_of_agg_calls(values[i]) by {
                lemma_resolved_exprs_keep_agg_calls(values[i], entering);
            }
            if aggregates_in_place(plan) {
                assert forall|i: int| 0 <= i < rows.len() implies all_free_of_agg_calls(
                    #[trigger] rows[i],
                ) by {
                    assert(all_free_of_agg_calls(values[i]));
                }
            }
            assert(resolved_plan(plan, entering)->Values_values == rows);
            if plan_free_of_bare_agg_calls(resolved_plan(plan, entering)) {
                assert forall|i: int| 0 <= i < values.len() implies all_free_of_agg_calls(
                    #[trigger] values[i],
                ) by {
                    assert(all_free_of_agg_calls(rows[i]));
                }
            }
        },
        PlanView::Join { left_plan, right_plan, join_op } => {
            lemma_resolved_plan_free_of_bare_agg_calls(*left_plan, entering);
            lemma_resolved_plan_free_of_bare_agg_calls(*right_plan, Seq::empty());
            lemma_resolved_expr_keeps_agg_calls(
                join_op.condition(),
                output_bindings(plan, entering),
            );
        },
        PlanView::Filter { expr, child } => {
            lemma_resolved_plan_free_of_bare_agg_calls(*child, entering);
            lemma_resolved_expr_keeps_agg_calls(expr, output_bindings(*child, entering));
        },
        PlanView::Order { comparators, child } => {
            lemma_resolved_plan_free_of_bare_agg_calls(*child, entering);
            let bindings = output_bindings(*child, entering);
            let keys = resolved_order_bys(comparators, bindings);
            assert forall|i: int| 0 <= i < comparators.len() implies free_of_agg_calls(
                (#[trigger] keys[i]).expr,
            ) == free_of_agg_calls(comparators[i].expr) by {
                lemma_resolved_expr_keeps_agg_calls(comparators[i].expr, bindings);
            }
            if aggregates_in_place(plan) {
                assert forall|i: int| 0 <= i < keys.len() implies free_of_agg_calls(
                    (#[trigger] keys[i]).expr,
                ) by {
                    assert(free_of_agg_calls(comparators[i].expr));
                }
            }
            if plan_free_of_bare_agg_calls(resolved_plan(plan, entering)) {
                assert forall|i: int| 0 <= i < comparators.len() implies free_of_agg_calls(
                    (#[trigger] comparators[i]).expr,
                ) by {
                    assert(free_of_agg_calls(keys[i].expr));
                }
            }
        },
        PlanView::Projection { project_expressions, child } => {
            lemma_resolved_plan_free_of_bare_agg_calls(*child, entering);
            let bindings = output_bindings(*child, entering);
            match *child {
                PlanView::Aggregate { group_keys, .. } => {
                    let taken = select_list_resolved(project_expressions, group_keys);
                    assert forall|i: int| 0 <= i < taken.len() implies free_of_agg_calls(
                        #[trigger] taken[i],
                    ) by {
                        lemma_select_resolved_free_of_agg_calls(
                            project_expressions[i],
                            group_keys,
                            group_keys.len() + select_agg_count_upto(
                                project_expressions,
                                group_keys,
                                i as nat,
                            ),
                        );
                    }
                    lemma_resolved_exprs_keep_agg_calls(taken, bindings);
                },
                _ => {
                    lemma_resolved_exprs_keep_agg_calls(project_expressions, bindings);
                },
            }
        },
        PlanView::Aggregate { agg_calls, group_keys, child } => {
            lemma_resolved_plan_free_of_bare_agg_calls(*child, entering);
            lemma_resolved_exprs_keep_agg_calls(group_keys, output_bindings(*child, entering));
        },
        PlanView::Limit { child, .. } | PlanView::Insert { child, .. } | PlanView::Explain {
            child,
        } | PlanView::Delete { child, .. } | PlanView::CopyToFile { child, .. } => {
            lemma_resolved_plan_free_of_bare_agg_calls(*child, entering);
        },
        _ => {},
    }
}

/// Whether every position that an expression refers to lies below `bound`.
pub open spec fn input_refs_below(expr: ExprView, bound: nat) -> bool
    decreases expr,
{
    match expr {
        ExprView::InputRef { index, .. } => index < bound,
        ExprView::BinaryOp { left, right, .. } => input_refs_below(*left, bound)
            && input_refs_below(*right, bound),
        ExprView::UnaryOp { expr, .. } => input_refs_below(*expr, bound),
        ExprView::TypeCast { expr, .. } => input_refs_below(*expr, bound),
        ExprView::AggCall(call) => forall|i: int|
            0 <= i < call.args.len() ==> input_refs_below(#[trigger] call.args[i], bound),
        ExprView::IsNull { expr } => input_refs_below(*expr, bound),
        ExprView::Alias { expr, .. } => input_refs_below(*expr, bound),
        _ => true,
    }
}

/// Whether every position that an expression refers to lies at `from` or
/// after it.
pub open spec fn input_refs_from(expr: ExprView, from: nat) -> bool
    decreases expr,
{
    match expr {
        ExprView::InputRef { index, .. } => index >= from,
        ExprView::BinaryOp { left, right, .. } => input_refs_from(*left, from) && input_refs_from(
            *right,
            from,
        ),
        ExprView::UnaryOp { expr, .. } => input_refs_from(*expr, from),
        ExprView::TypeCast { expr, .. } => input_refs_from(*expr, from),
        ExprView::AggCall(call) => forall|i: int|
            0 <= i < call.args.len() ==> input_refs_from(#[trigger] call.args[i], from),
        ExprView::IsNull { expr } => input_refs_from(*expr, from),
        ExprView::Alias { expr, .. } => input_refs_from(*expr, from),
        _ => true,
    }
}

/// Whether no reference to a column by name in an expression has a binding
/// equal to it.
pub open spec fn unbound(expr: ExprView, bindings: Bindings) -> bool
    decreases expr,
{
    match expr {
        ExprView::ColumnRef { .. } => position(bindings, Some(expr)) is None,
        ExprView::BinaryOp { left, right, .. } => unbound(*left, bindings) && unbound(
            *right,
            bindings,
        ),
        ExprView::UnaryOp { expr, .. } => unbound(*expr, bindings),
        ExprView::TypeCast { expr, .. } => unbound(*expr, bindings),
        ExprView::AggCall(call) => forall|i: int|
            0 <= i < call.args.len() ==> unbound(#[trigger] call.args[i], bindings),
        ExprView::IsNull { expr } => unbound(*expr, bindings),
        ExprView::Alias { expr, .. } => unbound(*expr, bindings),
        _ => true,
    }
}

/// The first position of an item in two sequences, one after the other: its
/// first position in the first where it is there, and else its first
/// position in the second, moved on by the length of the first.
pub proof fn lemma_position_in_concat<T>(left: Seq<T>, right: Seq<T>, item: T)
    ensures
        position(left + right, item) == match position(left, item) {
            Some(i) => Some(i),
            None => match position(right, item) {
                Some(j) => Some(left.len() + j),
                None => None,
            },
        },
{
    let both = left + right;
    lemma_first_index(both, item, both.len());
    lemma_first_index(left, item, left.len());
    lemma_first_index(right, item, right.len());
    assert forall|j: int| 0 <= j < left.len() implies both[j] == left[j] by {}
    assert forall|j: int| 0 <= j < right.len() implies both[left.len() + j] == right[j] by {}
    match position(left, item) {
        Some(i) => {
            assert(both[i as int] == item);
            match position(both, item) {
                Some(k) => {
                    if k > i {
                    } else if k < i {
                        assert(left[k as int] == item);
                    }
                },
                None => {},
            }
        },
        None => match position(right, item) {
            Some(j) => {
                assert(both[(left.len() + j) as int] == item);
                match position(both, item) {
                    Some(k) => {
                        if k < left.len() {
                            assert(left[k as int] == item);
                        } else if k < left.len() + j {
                            assert(right[k - left.len()] == item);
                        }
                    },
                    None => {},
                }
            },
            None => {
                match position(both, item) {
                    Some(k) => {
                        if k < left.len() {
                            assert(left[k as int] == item);
                        } else {
                            assert(right[k - left.len()] == item);
                        }
                    },
                    None => {},
                }
            },
        },
    }
}

/// A reference that only the right side of a join binds resolves to its
/// position on the right side, moved on by the number of columns of the left
/// side.
pub proof fn lemma_right_side_reference(expr: ExprView, left: Bindings, right: Bindings)
    requires
        expr is ColumnRef,
        position(left, Some(expr)) is None,
        position(right, Some(expr)) is Some,
    ensures
        resolved_expr(expr, left + right) == (ExprView::InputRef {
            index: left.len() + position(right, Some(expr))->0,
            return_type: expr->ColumnRef_desc.datatype,
        }),
{
    lemma_position_in_concat(left, right, Some(expr));
}

/// A reference that the left side of a join binds resolves to its position
/// on the left side.
pub proof fn lemma_left_side_reference(expr: ExprView, left: Bindings, right: Bindings)
    requires
        expr is ColumnRef,
        position(left, Some(expr)) is Some,
    ensures
        resolved_expr(expr, left + right) == (ExprView::InputRef {
            index: position(left, Some(expr))->0,
            return_type: expr->ColumnRef_desc.datatype,
        }),
        position(left, Some(expr))->0 < left.len(),
{
    lemma_position_in_concat(left, right, Some(expr));
    lemma_first_index(left, Some(expr), left.len());
}

/// Resolution puts every reference of an expression at a position below the
/// number of bindings, where the positions that the expression held before
/// lie there too.
pub proof fn lemma_resolved_expr_in_range(expr: ExprView, bindings: Bindings)
    requires
        resolves(expr, bindings),
        input_refs_below(expr, bindings.len()),
    ensures
        input_refs_below(resolved_expr(expr, bindings), bindings.len()),
    decreases expr,
{
    match expr {
        ExprView::ColumnRef { .. } => {
            lemma_first_index(bindings, Some(expr), bindings.len());
        },
        ExprView::BinaryOp { left, right, .. } => {
            lemma_resolved_expr_in_range(*left, bindings);
            lemma_resolved_expr_in_range(*right, bindings);
        },
        ExprView::UnaryOp { expr, .. } => lemma_resolved_expr_in_range(*expr, bindings),
        ExprView::TypeCast { expr, .. } => lemma_resolved_expr_in_range(*expr, bindings),
        ExprView::IsNull { expr } => lemma_resolved_expr_in_range(*expr, bindings),
        ExprView::Alias { expr, .. } => lemma_resolved_expr_in_range(*expr, bindings),
        ExprView::AggCall(call) => {
            let args = resolved_expr(expr, bindings)->AggCall_0.args;
            assert forall|i: int| 0 <= i < args.len() implies input_refs_below(
                #[trigger] args[i],
                bindings.len(),
            ) by {
                assert(resolves(call.args[i], bindings));
                assert(input_refs_below(call.args[i], bindings.len()));
                lemma_resolved_expr_in_range(call.args[i], bindings);
            }
        },
        _ => {},
    }
}

/// Resolution against the columns of both sides of a join puts every
/// reference that the left side does not bind at a position after the
/// columns of the left side.
pub proof fn lemma_right_side_expr(expr: ExprView, left: Bindings, right: Bindings)
    requires
        resolves(expr, left + right),
        unbound(expr, left),
        input_refs_from(expr, left.len()),
    ensures
        input_refs_from(resolved_expr(expr, left + right), left.len()),
    decreases expr,
{
    match expr {
        ExprView::ColumnRef { .. } => {
            lemma_position_in_concat(left, right, Some(expr));
        },
        ExprView::BinaryOp { left: l, right: r, .. } => {
            lemma_right_side_expr(*l, left, right);
            lemma_right_side_expr(*r, left, right);
        },
        ExprView::UnaryOp { expr, .. } => lemma_right_side_expr(*expr, left, right),
        ExprView::TypeCast { expr, .. } => lemma_right_side_expr(*expr, left, right),
        ExprView::IsNull { expr } => lemma_right_side_expr(*expr, left, right),
        ExprView::Alias { expr, .. } => lemma_right_side_expr(*expr, left, right),
        ExprView::AggCall(call) => {
            let args = resolved_expr(expr, left + right)->AggCall_0.args;
            assert forall|i: int| 0 <= i < args.len() implies input_refs_from(
                #[trigger] args[i],
                left.len(),
            ) by {
                assert(resolves(call.args[i], left + right));
                assert(unbound(call.args[i], left));
                assert(input_refs_from(call.args[i], left.len()));
                lemma_right_side_expr(call.args[i], left, right);
            }
        },
        _ => {},
    }
}

/// The number of columns of the rows that a plan yields.
pub open spec fn output_width(plan: PlanView, entering: Bindings) -> nat {
    output_bindings(plan, entering).len()
}

/// In the resolved condition of a join every position lies below the number
/// of columns of the left side and of the right side together, where the
/// positions that the condition held before resolution lie there too.
pub proof fn lemma_join_condition_in_range(plan: PlanView, entering: Bindings)
    requires
        plan is Join,
        resolvable(plan, entering),
        input_refs_below(
            plan->Join_join_op.condition(),
            output_width(*plan->left_plan, entering) + output_width(
                *plan->right_plan,
                Seq::empty(),
            ),
        ),
    ensures
        resolved_plan(plan, entering) is Join,
        input_refs_below(
            resolved_plan(plan, entering)->Join_join_op.condition(),
            output_width(*plan->left_plan, entering) + output_width(
                *plan->right_plan,
                Seq::empty(),
            ),
        ),
{
    lemma_resolved_expr_in_range(plan->Join_join_op.condition(), output_bindings(plan, entering));
}

/// In the resolved condition of a join every position lies after the columns
/// of the left side, where the left side binds no reference of the condition
/// and the positions that the condition held before resolution lie there
/// too.
pub proof fn lemma_join_condition_on_right_side(plan: PlanView, entering: Bindings)
    requires
        plan is Join,
        resolvable(plan, entering),
        unbound(plan->Join_join_op.condition(), output_bindings(*plan->left_plan, entering)),
        input_refs_from(plan->Join_join_op.condition(), output_width(*plan->left_plan, entering)),
    ensures
        resolved_plan(plan, entering) is Join,
        input_refs_from(
            resolved_plan(plan, entering)->Join_join_op.condition(),
            output_width(*plan->left_plan, entering),
        ),
{
    lemma_right_side_expr(
        plan->Join_join_op.condition(),
        output_bindings(*plan->left_plan, entering),
        output_bindings(*plan->right_plan, Seq::empty()),
    );
}

} // verus!
