//! What holds of a compiled statement.
//!
//! The planner takes the aggregate calls out of a select list in the order
//! in which the resolver gives them positions. Lowering keeps the
//! expressions of a plan. So the physical plan of a statement that can be
//! resolved holds positions only, where the statement held aggregate calls
//! in its select list only.

use vstd::prelude::*;
use crate::binder::expression::ExprView;
use crate::binder::statement::SelectView;
use crate::binder::statement::StatementView;
use crate::binder::statement::TableRefView;
use crate::logical_planner::PlanView;
use crate::logical_planner::select::agg_calls_of;
use crate::logical_planner::select::agg_calls_upto;
use crate::logical_planner::select::extracted;
use crate::logical_planner::select::extracted_list;
use crate::logical_planner::select::joined_tables;
use crate::logical_planner::select::scans_sorted;
use crate::logical_planner::select::select_aggregated;
use crate::logical_planner::select::select_filtered;
use crate::logical_planner::select::select_ordered;
use crate::logical_planner::select::select_plan;
use crate::logical_planner::select::select_projected;
use crate::logical_planner::select::select_source;
use crate::logical_planner::select::table_plan_upto;
use crate::logical_planner::statement_plan;
use crate::physical_planner::input_ref_resolver::Bindings;
use crate::physical_planner::input_ref_resolver::position;
use crate::physical_planner::input_ref_resolver::resolvable;
use crate::physical_planner::input_ref_resolver::resolved_plan;
use crate::physical_planner::input_ref_resolver::select_agg_count;
use crate::physical_planner::input_ref_resolver::select_resolved;
use crate::physical_planner::lowered;
use crate::physical_planner::PhysicalView;
use crate::physical_planner::resolved::aggregates_in_place;
use crate::physical_planner::resolved::all_free_of_agg_calls;
use crate::physical_planner::resolved::all_free_of_column_refs;
use crate::physical_planner::resolved::free_of_agg_calls;
use crate::physical_planner::resolved::free_of_column_refs;
use crate::physical_planner::resolved::lemma_resolved_plan_free_of_bare_agg_calls;
use crate::physical_planner::resolved::lemma_resolved_plan_free_of_column_refs;
use crate::physical_planner::resolved::plan_free_of_bare_agg_calls;
use crate::physical_planner::resolved::plan_free_of_column_refs;

verus! {

/// Whether the walk over a select expression meets neither a subexpression
/// equal to a group key nor an alias, down to its aggregate calls and leaves.
pub open spec fn plain_select(expr: ExprView, keys: Seq<ExprView>) -> bool
    decreases expr,
{
    &&& position(keys, expr) is None
    &&& match expr {
        ExprView::BinaryOp { left, right, .. } => plain_select(*left, keys) && plain_select(
            *right,
            keys,
        ),
        ExprView::UnaryOp { expr, .. } => plain_select(*expr, keys),
        ExprView::TypeCast { expr, .. } => plain_select(*expr, keys),
        ExprView::IsNull { expr } => plain_select(*expr, keys),
        ExprView::Alias { .. } => false,
        _ => true,
    }
}

/// The planner takes the aggregate calls out of a select expression in the
/// order in which the resolver gives them positions: where the walk meets no
/// group key and no alias, both put the same positions in the same places,
/// and count the same calls.
pub proof fn lemma_extraction_and_resolution_agree(expr: ExprView, keys: Seq<ExprView>, start: nat)
    requires
        plain_select(expr, keys),
    ensures
        select_resolved(expr, keys, start) == extracted(expr, start),
        select_agg_count(expr, keys) == agg_calls_of(expr).len(),
    decreases expr,
{
    match expr {
        ExprView::BinaryOp { left, right, .. } => {
            lemma_extraction_and_resolution_agree(*left, keys, start);
            lemma_extraction_and_resolution_agree(*right, keys, start + agg_calls_of(*left).len());
        },
        ExprView::UnaryOp { expr, .. } => lemma_extraction_and_resolution_agree(*expr, keys, start),
        ExprView::TypeCast { expr, .. } => lemma_extraction_and_resolution_agree(
            *expr,
            keys,
            start,
        ),
        ExprView::IsNull { expr } => lemma_extraction_and_resolution_agree(*expr, keys, start),
        _ => {},
    }
}

/// Whether no expression of a physical plan refers to a column by name.
pub open spec fn physical_free_of_column_refs(plan: PhysicalView) -> bool
    decreases plan,
{
    match plan {
        PhysicalView::Values { values, .. } => forall|i: int|
            0 <= i < values.len() ==> all_free_of_column_refs(#[trigger] values[i]),
        PhysicalView::Join { left_plan, right_plan, join_op } => {
            &&& physical_free_of_column_refs(*left_plan)
            &&& physical_free_of_column_refs(*right_plan)
            &&& free_of_column_refs(join_op.condition())
        },
        PhysicalView::Filter { expr, child } => physical_free_of_column_refs(*child)
            && free_of_column_refs(expr),
        PhysicalView::Order { comparators, child } => {
            &&& physical_free_of_column_refs(*child)
            &&& forall|i: int|
                0 <= i < comparators.len() ==> free_of_column_refs((#[trigger] comparators[i]).expr)
        },
        PhysicalView::Projection { project_expressions, child } => physical_free_of_column_refs(
            *child,
        ) && all_free_of_column_refs(project_expressions),
        PhysicalView::SimpleAgg { agg_calls, child } => {
            &&& physical_free_of_column_refs(*child)
            &&& forall|i: int|
                0 <= i < agg_calls.len() ==> all_free_of_column_refs((#[trigger] agg_calls[i]).args)
        },
        PhysicalView::HashAgg { agg_calls, group_keys, child } => {
            &&& physical_free_of_column_refs(*child)
            &&& forall|i: int|
                0 <= i < agg_calls.len() ==> all_free_of_column_refs((#[trigger] agg_calls[i]).args)
            &&& all_free_of_column_refs(group_keys)
        },
        PhysicalView::Limit { child, .. } | PhysicalView::Insert { child, .. }
        | PhysicalView::Explain { child } | PhysicalView::Delete { child, .. }
        | PhysicalView::CopyToFile { child, .. } => physical_free_of_column_refs(*child),
        _ => true,
    }
}

/// Whether no aggregate call of a physical plan stands outside the call list
/// of an aggregation.
pub open spec fn physical_free_of_bare_agg_calls(plan: PhysicalView) -> bool
    decreases plan,
{
    match plan {
        PhysicalView::Values { values, .. } => forall|i: int|
            0 <= i < values.len() ==> all_free_of_agg_calls(#[trigger] values[i]),
        PhysicalView::Join { left_plan, right_plan, join_op } => {
            &&& physical_free_of_bare_agg_calls(*left_plan)
            &&& physical_free_of_bare_agg_calls(*right_plan)
            &&& free_of_agg_calls(join_op.condition())
        },
        PhysicalView::Filter { expr, child } => physical_free_of_bare_agg_calls(*child)
            && free_of_agg_calls(expr),
        PhysicalView::Order { comparators, child } => {
            &&& physical_free_of_bare_agg_calls(*child)
            &&& forall|i: int|
                0 <= i < comparators.len() ==> free_of_agg_calls((#[trigger] comparators[i]).expr)
        },
        PhysicalView::Projection { project_expressions, child } => {
            physical_free_of_bare_agg_calls(*child) && all_free_of_agg_calls(project_expressions)
        },
        PhysicalView::SimpleAgg { child, .. } => physical_free_of_bare_agg_calls(*child),
        PhysicalView::HashAgg { group_keys, child, .. } => physical_free_of_bare_agg_calls(*child)
            && all_free_of_agg_calls(group_keys),
        PhysicalView::Limit { child, .. } | PhysicalView::Insert { child, .. }
        | PhysicalView::Explain { child } | PhysicalView::Delete { child, .. }
        | PhysicalView::CopyToFile { child, .. } => physical_free_of_bare_agg_calls(*child),
        _ => true,
    }
}

/// Lowering keeps the expressions: the physical plan refers to a column by
/// name, or holds an aggregate call outside a call list, exactly where the
/// logical plan does.
pub proof fn lemma_lowered_keeps_expressions(plan: PlanView)
    ensures
        physical_free_of_column_refs(lowered(plan)) == plan_free_of_column_refs(plan),
        physical_free_of_bare_agg_calls(lowered(plan)) == plan_free_of_bare_agg_calls(plan),
    decreases plan,
{
    match plan {
        PlanView::Values { column_types, values } => {
            let rows = lowered(plan)->Values_values;
            assert(rows == values);
            if plan_free_of_column_refs(plan) {
                assert forall|i: int| 0 <= i < rows.len() implies all_free_of_column_refs(
                    #[trigger] rows[i],
                ) by {
                    assert(all_free_of_column_refs(values[i]));
                }
            }
            if physical_free_of_column_refs(lowered(plan)) {
                assert forall|i: int| 0 <= i < values.len() implies all_free_of_column_refs(
                    #[trigger] values[i],
                ) by {
                    assert(all_free_of_column_refs(rows[i]));
                }
            }
            if plan_free_of_bare_agg_calls(plan) {
                assert forall|i: int| 0 <= i < rows.len() implies all_free_of_agg_calls(
                    #[trigger] rows[i],
                ) by {
                    assert(all_free_of_agg_calls(values[i]));
                }
            }
            if physical_free_of_bare_agg_calls(lowered(plan)) {
                assert forall|i: int| 0 <= i < values.len() implies all_free_of_agg_calls(
                    #[trigger] values[i],
                ) by {
                    assert(all_free_of_agg_calls(rows[i]));
                }
            }
        },
        PlanView::Join { left_plan, right_plan, .. } => {
            lemma_lowered_keeps_expressions(*left_plan);
            lemma_lowered_keeps_expressions(*right_plan);
        },
        PlanView::Filter { child, .. } => lemma_lowered_keeps_expressions(*child),
        PlanView::Order { child, .. } => lemma_lowered_keeps_expressions(*child),
        PlanView::Projection { child, .. } => lemma_lowered_keeps_expressions(*child),
        PlanView::Aggregate { child, .. } => lemma_lowered_keeps_expressions(*child),
        PlanView::Limit { child, .. } => lemma_lowered_keeps_expressions(*child),
        PlanView::Insert { child, .. } => lemma_lowered_keeps_expressions(*child),
        PlanView::Explain { child } => lemma_lowered_keeps_expressions(*child),
        PlanView::Delete { child, .. } => lemma_lowered_keeps_expressions(*child),
        PlanView::CopyToFile { child, .. } => lemma_lowered_keeps_expressions(*child),
        _ => {},
    }
}

/// The physical plan of a resolved logical plan holds positions only: no
/// expression of it refers to a column by name, and no aggregate call stands
/// outside the call list of an aggregation, where before resolution the
/// aggregate calls stood in place.
pub proof fn lemma_physical_plan_holds_positions(plan: PlanView, entering: Bindings)
    requires
        resolvable(plan, entering),
    ensures
        physical_free_of_column_refs(lowered(resolved_plan(plan, entering))),
        aggregates_in_place(plan) == physical_free_of_bare_agg_calls(
            lowered(resolved_plan(plan, entering)),
        ),
{
    lemma_resolved_plan_free_of_column_refs(plan, entering);
    lemma_resolved_plan_free_of_bare_agg_calls(plan, entering);
    lemma_lowered_keeps_expressions(resolved_plan(plan, entering));
}

/// Whether no alias that the planner's walk over an expression meets holds
/// an aggregate call. The walk does not look under an alias, so a call
/// there would stay.
pub open spec fn aliases_free_of_agg_calls(expr: ExprView) -> bool
    decreases expr,
{
    match expr {
        ExprView::BinaryOp { left, right, .. } => aliases_free_of_agg_calls(*left)
            && aliases_free_of_agg_calls(*right),
        ExprView::UnaryOp { expr, .. } => aliases_free_of_agg_calls(*expr),
        ExprView::TypeCast { expr, .. } => aliases_free_of_agg_calls(*expr),
        ExprView::IsNull { expr } => aliases_free_of_agg_calls(*expr),
        ExprView::Alias { expr, .. } => free_of_agg_calls(*expr),
        _ => true,
    }
}

/// An expression with its aggregate calls taken out holds none, where none
/// stood under an alias.
pub proof fn lemma_extracted_free_of_agg_calls(expr: ExprView, start: nat)
    requires
        aliases_free_of_agg_calls(expr),
    ensures
        free_of_agg_calls(extracted(expr, start)),
    decreases expr,
{
    match expr {
        ExprView::BinaryOp { left, right, .. } => {
            lemma_extracted_free_of_agg_calls(*left, start);
            lemma_extracted_free_of_agg_calls(*right, start + agg_calls_of(*left).len());
        },
        ExprView::UnaryOp { expr, .. } => lemma_extracted_free_of_agg_calls(*expr, start),
        ExprView::TypeCast { expr, .. } => lemma_extracted_free_of_agg_calls(*expr, start),
        ExprView::IsNull { expr } => lemma_extracted_free_of_agg_calls(*expr, start),
        _ => {},
    }
}

/// Whether no condition of the joins of a table reference holds an aggregate
/// call.
pub open spec fn table_free_of_agg_calls(table_ref: TableRefView) -> bool
    decreases table_ref,
{
    match table_ref {
        TableRefView::Base { .. } => true,
        TableRefView::Join { relation, join_tables } => {
            &&& table_free_of_agg_calls(*relation)
            &&& forall|i: int|
                0 <= i < join_tables.len() ==> {
                    &&& table_free_of_agg_calls(*(#[trigger] join_tables[i]).table_ref)
                    &&& free_of_agg_calls(join_tables[i].join_op.condition())
                }
        },
    }
}

/// The plan of a table reference whose join conditions hold no aggregate
/// call holds none either.
pub proof fn lemma_table_plan_in_place(
    table_ref: TableRefView,
    n: nat,
    with_row_handler: bool,
    is_sorted: bool,
)
    requires
        table_free_of_agg_calls(table_ref),
        n <= joined_tables(table_ref),
    ensures
        aggregates_in_place(table_plan_upto(table_ref, n, with_row_handler, is_sorted)),
    decreases table_ref, n,
{
    match table_ref {
        TableRefView::Base { .. } => {},
        TableRefView::Join { relation, join_tables } => {
            if n == 0 {
                lemma_table_plan_in_place(
                    *relation,
                    joined_tables(*relation),
                    with_row_handler,
                    is_sorted,
                );
            } else {
                let joined = join_tables[n - 1];
                lemma_table_plan_in_place(table_ref, (n - 1) as nat, with_row_handler, is_sorted);
                lemma_table_plan_in_place(
                    *joined.table_ref,
                    joined_tables(*joined.table_ref),
                    with_row_handler,
                    is_sorted,
                );
            }
        },
    }
}

/// Whether a `select` statement holds aggregate calls in its select list
/// only, and there under no alias.
pub open spec fn aggregates_in_select_list(stmt: SelectView) -> bool {
    &&& stmt.from_table.len() > 0 ==> table_free_of_agg_calls(stmt.from_table[0])
    &&& stmt.where_clause matches Some(expr) ==> free_of_agg_calls(expr)
    &&& all_free_of_agg_calls(stmt.group_by)
    &&& forall|i: int|
        0 <= i < stmt.orderby.len() ==> free_of_agg_calls((#[trigger] stmt.orderby[i]).expr)
    &&& forall|i: int|
        0 <= i < stmt.select_list.len() ==> aliases_free_of_agg_calls(
            #[trigger] stmt.select_list[i],
        )
}

/// The plan of a `select` statement that holds aggregate calls in its select
/// list only holds them where resolution deals with them.
pub proof fn lemma_select_plan_in_place(stmt: SelectView)
    requires
        aggregates_in_select_list(stmt),
        select_plan(stmt) is Ok,
    ensures
        aggregates_in_place(select_plan(stmt)->Ok_0),
{
    if stmt.from_table.len() > 0 {
        lemma_table_plan_in_place(
            stmt.from_table[0],
            joined_tables(stmt.from_table[0]),
            false,
            scans_sorted(stmt),
        );
    }
    assert(aggregates_in_place(select_source(stmt)));
    assert(aggregates_in_place(select_filtered(stmt)));
    assert(aggregates_in_place(select_aggregated(stmt)));
    let list = extracted_list(stmt.select_list, stmt.group_by.len());
    assert forall|i: int| 0 <= i < list.len() implies free_of_agg_calls(#[trigger] list[i]) by {
        assert(aliases_free_of_agg_calls(stmt.select_list[i]));
        lemma_extracted_free_of_agg_calls(
            stmt.select_list[i],
            stmt.group_by.len() + agg_calls_upto(stmt.select_list, i as nat).len(),
        );
    }
    assert(aggregates_in_place(select_projected(stmt)));
    assert(aggregates_in_place(select_ordered(stmt)));
}

/// Whether a statement holds aggregate calls in the select list of a
/// `select` only, and there under no alias.
pub open spec fn statement_aggregates_in_select_list(stmt: StatementView) -> bool
    decreases stmt,
{
    match stmt {
        StatementView::Select(stmt) => aggregates_in_select_list(stmt),
        StatementView::Explain(stmt) => statement_aggregates_in_select_list(*stmt),
        StatementView::Insert(stmt) => forall|i: int|
            0 <= i < stmt.values.len() ==> all_free_of_agg_calls(#[trigger] stmt.values[i]),
        StatementView::Delete(stmt) => {
            &&& table_free_of_agg_calls(stmt.from_table)
            &&& stmt.where_clause matches Some(expr) ==> free_of_agg_calls(expr)
        },
        _ => true,
    }
}

/// The plan of a statement that holds aggregate calls in the select list of
/// a `select` only holds them where resolution deals with them: where it can
/// be resolved, its physical plan holds positions only.
pub proof fn lemma_statement_plan_in_place(stmt: StatementView)
    requires
        statement_aggregates_in_select_list(stmt),
        statement_plan(stmt) is Ok,
    ensures
        aggregates_in_place(statement_plan(stmt)->Ok_0),
        resolvable(statement_plan(stmt)->Ok_0, Seq::empty()) ==> {
            let physical = lowered(resolved_plan(statement_plan(stmt)->Ok_0, Seq::empty()));
            physical_free_of_column_refs(physical) && physical_free_of_bare_agg_calls(physical)
        },
    decreases stmt,
{
    reveal_with_fuel(aggregates_in_place, 3);
    match stmt {
        StatementView::Select(stmt) => lemma_select_plan_in_place(stmt),
        StatementView::Explain(stmt) => lemma_statement_plan_in_place(*stmt),
        StatementView::Delete(stmt) => {
            lemma_table_plan_in_place(
                stmt.from_table,
                joined_tables(stmt.from_table),
                true,
                false,
            );
        },
        _ => {},
    }
    if resolvable(statement_plan(stmt)->Ok_0, Seq::empty()) {
        lemma_physical_plan_holds_positions(statement_plan(stmt)->Ok_0, Seq::empty());
    }
}

} // verus!
