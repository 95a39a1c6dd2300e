//! Resolution of column references into positions.
//!
//! Every operator is given rows by its children. The resolver walks a plan
//! tree, children before their parent, and keeps for the node at hand the
//! *bindings*: for each column of the rows that the node is given, the
//! expression that the column stands for. A reference to a column by name
//! that stands in an expression of the node is replaced by the position of
//! the binding equal to it.
//!
//! A projection directly over an aggregation is given group keys and
//! aggregate results. There whole subexpressions equal to a group key become
//! the key's position, and aggregate calls become the positions after the
//! keys, in the order in which the calls were taken out of the select list.

use std::rc::Rc;
use vstd::prelude::*;
use crate::binder::agg_call::agg_calls_view;
use crate::binder::agg_call::AggCallView;
use crate::binder::agg_call::BoundAggCall;
use crate::binder::expression::clone_exprs;
use crate::binder::expression::exprs_view;
use crate::binder::expression::lemma_agg_call_view;
use crate::binder::expression::rows_view;
use crate::binder::expression::BoundAlias;
use crate::binder::expression::BoundBinaryOp;
use crate::binder::expression::BoundColumnRef;
use crate::binder::expression::BoundExpr;
use crate::binder::expression::BoundInputRef;
use crate::binder::expression::BoundIsNull;
use crate::binder::expression::BoundTypeCast;
use crate::binder::expression::BoundUnaryOp;
use crate::binder::expression::ExprView;
use crate::binder::statement::order_bys_view;
use crate::binder::statement::BoundJoinConstraint;
use crate::binder::statement::BoundJoinOperator;
use crate::binder::statement::BoundOrderBy;
use crate::binder::statement::OrderByView;
use crate::catalog::ColumnDescView;
use crate::catalog::ColumnId;
use crate::catalog::ColumnRefId;
use crate::catalog::TableRefId;
use crate::logical_planner::only_child;
use crate::logical_planner::LogicalAggregate;
use crate::logical_planner::LogicalFilter;
use crate::logical_planner::LogicalGet;
use crate::logical_planner::LogicalJoin;
use crate::logical_planner::LogicalOrder;
use crate::logical_planner::LogicalPlan;
use crate::logical_planner::LogicalPlanRef;
use crate::logical_planner::LogicalPlanTrait;
use crate::logical_planner::LogicalProjection;
use crate::logical_planner::LogicalValues;
use crate::logical_planner::PlanView;
use crate::types::clone_types;

verus! {

/// The first position among the first `n` items of a sequence that holds
/// `item`.
pub open spec fn first_index<T>(items: Seq<T>, item: T, n: nat) -> Option<nat>
    decreases n,
{
    if n == 0 {
        None
    } else {
        match first_index(items, item, (n - 1) as nat) {
            Some(i) => Some(i),
            None => if items[n - 1] == item {
                Some((n - 1) as nat)
            } else {
                None
            },
        }
    }
}

/// The first position of a sequence that holds `item`.
pub open spec fn position<T>(items: Seq<T>, item: T) -> Option<nat> {
    first_index(items, item, items.len())
}

/// What [`first_index`] finds: a position below `n` that holds the item and
/// has none that holds it before it; and nothing only where no position below
/// `n` holds the item.
pub proof fn lemma_first_index<T>(items: Seq<T>, item: T, n: nat)
    requires
        n <= items.len(),
    ensures
        match first_index(items, item, n) {
            Some(i) => i < n && items[i as int] == item && forall|j: int|
                0 <= j < i ==> items[j] != item,
            None => forall|j: int| 0 <= j < n ==> items[j] != item,
        },
    decreases n,
{
    if n > 0 {
        lemma_first_index(items, item, (n - 1) as nat);
    }
}

/// For each column of the rows that an operator is given, the expression that
/// the column stands for, where there is one.
pub type Bindings = Seq<Option<ExprView>>;

/// An expression with each reference to a column by name replaced by the
/// position of the first binding equal to it. A reference that no binding
/// equals stays.
pub open spec fn resolved_expr(expr: ExprView, bindings: Bindings) -> ExprView
    decreases expr,
{
    match expr {
        ExprView::ColumnRef { desc, .. } => match position(bindings, Some(expr)) {
            Some(index) => ExprView::InputRef { index, return_type: desc.datatype },
            None => expr,
        },
        ExprView::BinaryOp { op, left, right, return_type } => ExprView::BinaryOp {
            op,
            left: Box::new(resolved_expr(*left, bindings)),
            right: Box::new(resolved_expr(*right, bindings)),
            return_type,
        },
        ExprView::UnaryOp { op, expr, return_type } => ExprView::UnaryOp {
            op,
            expr: Box::new(resolved_expr(*expr, bindings)),
            return_type,
        },
        ExprView::TypeCast { ty, expr } => ExprView::TypeCast {
            ty,
            expr: Box::new(resolved_expr(*expr, bindings)),
        },
        ExprView::AggCall(call) => ExprView::AggCall(
            AggCallView {
                kind: call.kind,
                args: Seq::new(
                    call.args.len(),
                    |i: int|
                        if 0 <= i < call.args.len() {
                            resolved_expr(call.args[i], bindings)
                        } else {
                            expr
                        },
                ),
                return_type: call.return_type,
            },
        ),
        ExprView::IsNull { expr } => ExprView::IsNull {
            expr: Box::new(resolved_expr(*expr, bindings)),
        },
        ExprView::Alias { alias, expr } => ExprView::Alias {
            alias,
            expr: Box::new(resolved_expr(*expr, bindings)),
        },
        _ => expr,
    }
}

/// Whether every reference to a column by name in an expression has a binding
/// equal to it.
pub open spec fn resolves(expr: ExprView, bindings: Bindings) -> bool
    decreases expr,
{
    match expr {
        ExprView::ColumnRef { .. } => position(bindings, Some(expr)) is Some,
        ExprView::BinaryOp { left, right, .. } => resolves(*left, bindings) && resolves(
            *right,
            bindings,
        ),
        ExprView::UnaryOp { expr, .. } => resolves(*expr, bindings),
        ExprView::TypeCast { expr, .. } => resolves(*expr, bindings),
        ExprView::AggCall(call) => forall|i: int|
            0 <= i < call.args.len() ==> resolves(#[trigger] call.args[i], bindings),
        ExprView::IsNull { expr } => resolves(*expr, bindings),
        ExprView::Alias { expr, .. } => resolves(*expr, bindings),
        _ => true,
    }
}

/// The expressions of a list, each resolved.
pub open spec fn resolved_exprs(exprs: Seq<ExprView>, bindings: Bindings) -> Seq<ExprView> {
    exprs.map_values(|e: ExprView| resolved_expr(e, bindings))
}

/// Whether every expression of a list resolves.
pub open spec fn all_resolve(exprs: Seq<ExprView>, bindings: Bindings) -> bool {
    forall|i: int| 0 <= i < exprs.len() ==> resolves(#[trigger] exprs[i], bindings)
}

/// How many aggregate calls of a select expression get a position after the
/// group keys. A subexpression equal to a group key is taken whole, and what
/// stands in it does not count.
pub open spec fn select_agg_count(expr: ExprView, keys: Seq<ExprView>) -> nat
    decreases expr,
{
    if position(keys, expr) is Some {
        0
    } else {
        match expr {
            ExprView::AggCall(_) => 1,
            ExprView::BinaryOp { left, right, .. } => select_agg_count(*left, keys)
                + select_agg_count(*right, keys),
            ExprView::UnaryOp { expr, .. } => select_agg_count(*expr, keys),
            ExprView::TypeCast { expr, .. } => select_agg_count(*expr, keys),
            ExprView::IsNull { expr } => select_agg_count(*expr, keys),
            ExprView::Alias { expr, .. } => select_agg_count(*expr, keys),
            _ => 0,
        }
    }
}

/// A select expression over the rows of an aggregation with group keys
/// `keys`. A subexpression equal to a group key becomes the position of the
/// first such key. Of the rest, each aggregate call becomes the next
/// position from `start` on, depth first and left before right.
pub open spec fn select_resolved(expr: ExprView, keys: Seq<ExprView>, start: nat) -> ExprView
    decreases expr,
{
    match position(keys, expr) {
        Some(index) => ExprView::InputRef { index, return_type: expr.return_type()->0 },
        None => match expr {
            ExprView::AggCall(call) => ExprView::InputRef {
                index: start,
                return_type: call.return_type,
            },
            ExprView::BinaryOp { op, left, right, return_type } => ExprView::BinaryOp {
                op,
                left: Box::new(select_resolved(*left, keys, start)),
                right: Box::new(
                    select_resolved(*right, keys, start + select_agg_count(*left, keys)),
                ),
                return_type,
            },
            ExprView::UnaryOp { op, expr, return_type } => ExprView::UnaryOp {
                op,
                expr: Box::new(select_resolved(*expr, keys, start)),
                return_type,
            },
            ExprView::TypeCast { ty, expr } => ExprView::TypeCast {
                ty,
                expr: Box::new(select_resolved(*expr, keys, start)),
            },
            ExprView::IsNull { expr } => ExprView::IsNull {
                expr: Box::new(select_resolved(*expr, keys, start)),
            },
            ExprView::Alias { alias, expr } => ExprView::Alias {
                alias,
                expr: Box::new(select_resolved(*expr, keys, start)),
            },
            _ => expr,
        },
    }
}

/// Whether each subexpression of a select expression that is taken for a
/// group key has a type, which its position then carries.
pub open spec fn select_typed(expr: ExprView, keys: Seq<ExprView>) -> bool
    decreases expr,
{
    if position(keys, expr) is Some {
        expr.return_type() is Some
    } else {
        match expr {
            ExprView::BinaryOp { left, right, .. } => select_typed(*left, keys) && select_typed(
                *right,
                keys,
            ),
            ExprView::UnaryOp { expr, .. } => select_typed(*expr, keys),
            ExprView::TypeCast { expr, .. } => select_typed(*expr, keys),
            ExprView::IsNull { expr } => select_typed(*expr, keys),
            ExprView::Alias { expr, .. } => select_typed(*expr, keys),
            _ => true,
        }
    }
}

/// How many aggregate calls of the first `n` select expressions get a
/// position.
pub open spec fn select_agg_count_upto(exprs: Seq<ExprView>, keys: Seq<ExprView>, n: nat) -> nat
    decreases n,
{
    if n == 0 {
        0
    } else {
        select_agg_count_upto(exprs, keys, (n - 1) as nat) + select_agg_count(exprs[n - 1], keys)
    }
}

/// A select list over the rows of an aggregation: the positions of the
/// aggregate calls start after the group keys and run on from one expression
/// to the next.
pub open spec fn select_list_resolved(exprs: Seq<ExprView>, keys: Seq<ExprView>) -> Seq<ExprView> {
    Seq::new(
        exprs.len(),
        |i: int|
            select_resolved(exprs[i], keys, keys.len() + select_agg_count_upto(exprs, keys, i as nat)),
    )
}

/// Whether every expression of a select list is typed where it needs to be.
pub open spec fn select_list_typed(exprs: Seq<ExprView>, keys: Seq<ExprView>) -> bool {
    forall|i: int| 0 <= i < exprs.len() ==> select_typed(#[trigger] exprs[i], keys)
}

/// The bindings of a table scan: one reference by name for each column that
/// has both an id and a descriptor.
pub open spec fn scan_bindings(
    table_ref_id: TableRefId,
    column_ids: Seq<ColumnId>,
    column_descs: Seq<ColumnDescView>,
) -> Bindings {
    Seq::new(
        if column_ids.len() <= column_descs.len() {
            column_ids.len()
        } else {
            column_descs.len()
        },
        |i: int|
            Some(
                ExprView::ColumnRef {
                    column_ref_id: ColumnRefId::of_table(table_ref_id, column_ids[i]),
                    is_primary_key: column_descs[i].is_primary,
                    desc: column_descs[i],
                },
            ),
    )
}

/// The bindings that stand for a list of expressions, one for one.
pub open spec fn bound(exprs: Seq<ExprView>) -> Bindings {
    exprs.map_values(|e: ExprView| Some(e))
}

/// The bindings of the rows that a plan yields, where `entering` are the
/// bindings before the plan is entered.
///
/// A scan binds its columns. A join yields the columns of its left side, then
/// those of its right side, which starts from no bindings. A projection
/// binds its expressions and an aggregation its group keys, as they stand
/// before resolution; the results of the aggregate calls get no binding. A
/// node that passes rows on passes the bindings on, and a leaf that defines
/// no columns leaves them as they were.
pub open spec fn output_bindings(plan: PlanView, entering: Bindings) -> Bindings
    decreases plan,
{
    match plan {
        PlanView::Get { table_ref_id, column_ids, column_descs, .. } => scan_bindings(
            table_ref_id,
            column_ids,
            column_descs,
        ),
        PlanView::Join { left_plan, right_plan, .. } => output_bindings(*left_plan, entering)
            + output_bindings(*right_plan, Seq::empty()),
        PlanView::Projection { project_expressions, .. } => bound(project_expressions),
        PlanView::Aggregate { group_keys, .. } => bound(group_keys),
        PlanView::Filter { child, .. } | PlanView::Order { child, .. } | PlanView::Limit {
            child,
            ..
        } | PlanView::Insert { child, .. } | PlanView::Explain { child } | PlanView::Delete {
            child,
            ..
        } | PlanView::CopyToFile { child, .. } => output_bindings(*child, entering),
        _ => entering,
    }
}

/// The keys of an ordering, the expression of each resolved.
pub open spec fn resolved_order_bys(keys: Seq<OrderByView>, bindings: Bindings) -> Seq<
    OrderByView,
> {
    keys.map_values(
        |k: OrderByView|
            OrderByView { expr: resolved_expr(k.expr, bindings), descending: k.descending },
    )
}

/// The aggregate calls of a list, the arguments of each resolved.
pub open spec fn resolved_agg_calls(calls: Seq<AggCallView>, bindings: Bindings) -> Seq<
    AggCallView,
> {
    calls.map_values(
        |c: AggCallView|
            AggCallView {
                kind: c.kind,
                args: resolved_exprs(c.args, bindings),
                return_type: c.return_type,
            },
    )
}

/// The rows of a table of expressions, each expression resolved.
pub open spec fn resolved_rows(rows: Seq<Seq<ExprView>>, bindings: Bindings) -> Seq<Seq<ExprView>> {
    rows.map_values(|row: Seq<ExprView>| resolved_exprs(row, bindings))
}

/// The select list of a projection over a child: over an aggregation, first
/// taken to the positions of group keys and aggregate results; in any case
/// resolved against the child's bindings.
pub open spec fn resolved_select_list(
    exprs: Seq<ExprView>,
    child: PlanView,
    bindings: Bindings,
) -> Seq<ExprView> {
    match child {
        PlanView::Aggregate { group_keys, .. } => resolved_exprs(
            select_list_resolved(exprs, group_keys),
            bindings,
        ),
        _ => resolved_exprs(exprs, bindings),
    }
}

/// A plan with every expression resolved against the bindings of the rows
/// that its node is given.
pub open spec fn resolved_plan(plan: PlanView, entering: Bindings) -> PlanView
    decreases plan,
{
    match plan {
        PlanView::Values { column_types, values } => PlanView::Values {
            column_types,
            values: resolved_rows(values, entering),
        },
        PlanView::Join { left_plan, right_plan, join_op } => PlanView::Join {
            left_plan: Box::new(resolved_plan(*left_plan, entering)),
            right_plan: Box::new(resolved_plan(*right_plan, Seq::empty())),
            join_op: join_op.with_condition(
                resolved_expr(join_op.condition(), output_bindings(plan, entering)),
            ),
        },
        PlanView::Filter { expr, child } => PlanView::Filter {
            expr: resolved_expr(expr, output_bindings(*child, entering)),
            child: Box::new(resolved_plan(*child, entering)),
        },
        PlanView::Order { comparators, child } => PlanView::Order {
            comparators: resolved_order_bys(comparators, output_bindings(*child, entering)),
            child: Box::new(resolved_plan(*child, entering)),
        },
        PlanView::Projection { project_expressions, child } => PlanView::Projection {
            project_expressions: resolved_select_list(
                project_expressions,
                *child,
                output_bindings(*child, entering),
            ),
            child: Box::new(resolved_plan(*child, entering)),
        },
        PlanView::Aggregate { agg_calls, group_keys, child } => PlanView::Aggregate {
            agg_calls: resolved_agg_calls(agg_calls, output_bindings(*child, entering)),
            group_keys: resolved_exprs(group_keys, output_bindings(*child, entering)),
            child: Box::new(resolved_plan(*child, entering)),
        },
        PlanView::Limit { child, .. } | PlanView::Insert { child, .. } | PlanView::Explain {
            child,
        } | PlanView::Delete { child, .. } | PlanView::CopyToFile { child, .. } => {
            plan.with_children(seq![resolved_plan(*child, entering)])
        },
        _ => plan,
    }
}

/// Whether the select list of a projection over a child can be resolved.
pub open spec fn select_list_resolvable(
    exprs: Seq<ExprView>,
    child: PlanView,
    bindings: Bindings,
) -> bool {
    match child {
        PlanView::Aggregate { group_keys, .. } => {
            &&& select_list_typed(exprs, group_keys)
            &&& group_keys.len() + select_agg_count_upto(exprs, group_keys, exprs.len())
                <= usize::MAX
            &&& all_resolve(select_list_resolved(exprs, group_keys), bindings)
        },
        _ => all_resolve(exprs, bindings),
    }
}

/// Whether a plan can be resolved: every reference to a column by name has a
/// binding equal to it among those of the rows that its node is given, every
/// select expression taken for a group key has a type, and the positions fit
/// the machine word.
pub open spec fn resolvable(plan: PlanView, entering: Bindings) -> bool
    decreases plan,
{
    match plan {
        PlanView::Values { values, .. } => forall|i: int|
            0 <= i < values.len() ==> all_resolve(#[trigger] values[i], entering),
        PlanView::Join { left_plan, right_plan, join_op } => {
            &&& resolvable(*left_plan, entering)
            &&& resolvable(*right_plan, Seq::empty())
            &&& resolves(join_op.condition(), output_bindings(plan, entering))
        },
        PlanView::Filter { expr, child } => resolvable(*child, entering) && resolves(
            expr,
            output_bindings(*child, entering),
        ),
        PlanView::Order { comparators, child } => {
            &&& resolvable(*child, entering)
            &&& forall|i: int|
                0 <= i < comparators.len() ==> resolves(
                    (#[trigger] comparators[i]).expr,
                    output_bindings(*child, entering),
                )
        },
        PlanView::Projection { project_expressions, child } => {
            &&& resolvable(*child, entering)
            &&& select_list_resolvable(
                project_expressions,
                *child,
                output_bindings(*child, entering),
            )
        },
        PlanView::Aggregate { agg_calls, group_keys, child } => {
            &&& resolvable(*child, entering)
            &&& forall|i: int|
                0 <= i < agg_calls.len() ==> all_resolve(
                    (#[trigger] agg_calls[i]).args,
                    output_bindings(*child, entering),
                )
            &&& all_resolve(group_keys, output_bindings(*child, entering))
        },
        PlanView::Limit { child, .. } | PlanView::Insert { child, .. } | PlanView::Explain {
            child,
        } | PlanView::Delete { child, .. } | PlanView::CopyToFile { child, .. } => resolvable(
            *child,
            entering,
        ),
        _ => true,
    }
}

/// What has been found among the first items stays found among more.
pub proof fn lemma_first_index_stays<T>(items: Seq<T>, item: T, n: nat, m: nat)
    requires
        n <= m,
        first_index(items, item, n) is Some,
    ensures
        first_index(items, item, m) == first_index(items, item, n),
    decreases m,
{
    if n < m {
        lemma_first_index_stays(items, item, n, (m - 1) as nat);
    }
}

/// Whether what was found is the first position that holds the item.
pub open spec fn is_position<T>(found: Option<usize>, items: Seq<T>, item: T) -> bool {
    match found {
        Some(i) => position(items, item) == Some(i as nat),
        None => position(items, item) is None,
    }
}

/// The first position of `keys` that holds an expression of the same value
/// as `expr`.
pub fn position_of(keys: &Vec<BoundExpr>, expr: &BoundExpr) -> (found: Option<usize>)
    ensures
        is_position(found, exprs_view(keys@), expr@),
{
    let mut i: usize = 0;
    while i < keys.len()
        invariant
            i <= keys.len(),
            first_index(exprs_view(keys@), expr@, i as nat) is None,
        decreases keys.len() - i,
    {
        if keys[i].equals(expr) {
            proof {
                lemma_first_index_stays(
                    exprs_view(keys@),
                    expr@,
                    (i + 1) as nat,
                    keys.len() as nat,
                );
            }
            return Some(i);
        }
        i += 1;
    }
    None
}

/// Resolves the select list of a projection over an aggregation.
#[derive(Debug, Default)]
pub struct AggInputRefResolver {
    /// The position of the next aggregate result.
    pub agg_start_index: usize,
}

impl AggInputRefResolver {
    /// A resolver over an aggregation with `group_key_count` group keys.
    pub fn new(group_key_count: usize) -> (resolver: AggInputRefResolver)
        ensures
            resolver.agg_start_index == group_key_count,
    {
        AggInputRefResolver { agg_start_index: group_key_count }
    }

    /// Resolves one select expression in place. A subexpression of the same
    /// value as a group key becomes the key's position; an aggregate call
    /// becomes the next position after the keys.
    pub fn resolve_select_expr(&mut self, expr: &mut BoundExpr, group_keys: &Vec<BoundExpr>)
        requires
            select_typed(old(expr)@, exprs_view(group_keys@)),
            old(self).agg_start_index + select_agg_count(old(expr)@, exprs_view(group_keys@))
                <= usize::MAX,
        ensures
            final(expr)@ == select_resolved(
                old(expr)@,
                exprs_view(group_keys@),
                old(self).agg_start_index as nat,
            ),
            final(self).agg_start_index == old(self).agg_start_index + select_agg_count(
                old(expr)@,
                exprs_view(group_keys@),
            ),
        decreases *old(expr),
    {
        if let Some(i) = position_of(group_keys, expr) {
            let return_type = expr.return_type().unwrap();
            *expr = BoundExpr::InputRef(BoundInputRef { index: i, return_type });
            return ;
        }
        match expr {
            // The aggregate results stand after the group keys.
            BoundExpr::AggCall(agg) => {
                proof {
                    lemma_agg_call_view(*agg);
                }
                let return_type = agg.return_type;
                *expr = BoundExpr::InputRef(
                    BoundInputRef { index: self.agg_start_index, return_type },
                );
                self.agg_start_index += 1;
            },
            BoundExpr::BinaryOp(bin_op) => {
                self.resolve_select_expr(&mut *bin_op.left_expr, group_keys);
                self.resolve_select_expr(&mut *bin_op.right_expr, group_keys);
            },
            BoundExpr::UnaryOp(unary_op) => self.resolve_select_expr(
                &mut *unary_op.expr,
                group_keys,
            ),
            BoundExpr::TypeCast(type_cast) => self.resolve_select_expr(
                &mut *type_cast.expr,
                group_keys,
            ),
            BoundExpr::Alias(alias) => self.resolve_select_expr(&mut *alias.expr, group_keys),
            BoundExpr::IsNull(is_null) => self.resolve_select_expr(&mut *is_null.expr, group_keys),
            _ => {},
        }
    }
}

/// The view of one binding.
pub open spec fn binding_view(binding: Option<BoundExpr>) -> Option<ExprView> {
    match binding {
        Some(expr) => Some(expr@),
        None => None,
    }
}

/// The views of bindings, one for one.
pub open spec fn bindings_view(bindings: Seq<Option<BoundExpr>>) -> Bindings {
    bindings.map_values(|b: Option<BoundExpr>| binding_view(b))
}

/// Resolves the references to columns by name, all over a plan, into
/// positions in the rows that each operator is given.
#[derive(Debug)]
pub struct InputRefResolver {
    /// The bindings of the rows that the plan visited last yields.
    ///
    /// A plan that passes rows on, such as a filter, leaves them as its child
    /// set them. A plan that makes rows of its own, such as a scan, a join, a
    /// projection or an aggregation, sets them before it is left.
    bindings: Vec<Option<BoundExpr>>,
}

impl View for InputRefResolver {
    type V = Bindings;

    closed spec fn view(&self) -> Bindings {
        bindings_view(self.bindings@)
    }
}

impl Default for InputRefResolver {
    fn default() -> (resolver: InputRefResolver)
        ensures
            resolver@ == Seq::<Option<ExprView>>::empty(),
    {
        let resolver = InputRefResolver { bindings: Vec::new() };
        assert(resolver@ =~= Seq::<Option<ExprView>>::empty());
        resolver
    }
}

impl InputRefResolver {
    /// The bindings as they stand.
    pub fn bindings(&self) -> (bindings: &Vec<Option<BoundExpr>>)
        ensures
            bindings_view(bindings@) == self@,
    {
        &self.bindings
    }

    /// The position of the first binding of the same value as `expr`.
    fn binding_position(&self, expr: &BoundExpr) -> (found: Option<usize>)
        ensures
            is_position(found, self@, Some(expr@)),
    {
        let mut i: usize = 0;
        while i < self.bindings.len()
            invariant
                i <= self.bindings.len(),
                first_index(self@, Some(expr@), i as nat) is None,
            decreases self.bindings.len() - i,
        {
            let same = match &self.bindings[i] {
                Some(bound) => bound.equals(expr),
                None => false,
            };
            if same {
                proof {
                    lemma_first_index_stays(
                        self@,
                        Some(expr@),
                        (i + 1) as nat,
                        self.bindings.len() as nat,
                    );
                }
                return Some(i);
            }
            i += 1;
        }
        None
    }

    /// Replaces a reference to a column by name with the position of the
    /// first binding equal to it. A reference without such a binding has no
    /// place in the rows at hand, and must not be handed in.
    pub fn rewrite_column_ref(&self, expr: &mut BoundExpr)
        requires
            old(expr)@ is ColumnRef,
            resolves(old(expr)@, self@),
        ensures
            final(expr)@ == resolved_expr(old(expr)@, self@),
            final(expr)@ is InputRef,
    {
        match self.binding_position(expr) {
            Some(idx) => {
                let return_type = expr.return_type().unwrap();
                *expr = BoundExpr::InputRef(BoundInputRef { index: idx, return_type });
            },
            None => unreached(),
        }
    }

    /// Resolves the references to columns by name in an expression.
    pub fn rewrite_expr(&self, expr: &BoundExpr) -> (result: BoundExpr)
        requires
            resolves(expr@, self@),
        ensures
            result@ == resolved_expr(expr@, self@),
        decreases expr,
    {
        match expr {
            BoundExpr::ColumnRef(_) => {
                let mut result = expr.clone();
                self.rewrite_column_ref(&mut result);
                result
            },
            BoundExpr::BinaryOp(b) => BoundExpr::BinaryOp(
                BoundBinaryOp {
                    op: b.op,
                    left_expr: Box::new(self.rewrite_expr(&b.left_expr)),
                    right_expr: Box::new(self.rewrite_expr(&b.right_expr)),
                    return_type: b.return_type,
                },
            ),
            BoundExpr::UnaryOp(u) => BoundExpr::UnaryOp(
                BoundUnaryOp {
                    op: u.op,
                    expr: Box::new(self.rewrite_expr(&u.expr)),
                    return_type: u.return_type,
                },
            ),
            BoundExpr::TypeCast(t) => BoundExpr::TypeCast(
                BoundTypeCast { ty: t.ty, expr: Box::new(self.rewrite_expr(&t.expr)) },
            ),
            BoundExpr::AggCall(a) => {
                proof {
                    lemma_agg_call_view(*a);
                }
                let mut args: Vec<BoundExpr> = Vec::new();
                let mut i: usize = 0;
                while i < a.args.len()
                    invariant
                        i <= a.args.len(),
                        args.len() == i,
                        expr@ == ExprView::AggCall(a@),
                        resolves(expr@, self@),
                        decreases_to!(expr => a.args),
                        forall|j: int|
                            0 <= j < i ==> args[j]@ == resolved_expr(
                                #[trigger] a@.args[j],
                                self@,
                            ),
                    decreases a.args.len() - i,
                {
                    assert(resolves(a@.args[i as int], self@));
                    let arg = &a.args[i];
                    args.push(self.rewrite_expr(arg));
                    i += 1;
                }
                let call = BoundAggCall { kind: a.kind, args, return_type: a.return_type };
                proof {
                    lemma_agg_call_view(call);
                    assert(call@.args =~= resolved_expr(expr@, self@)->AggCall_0.args);
                }
                BoundExpr::AggCall(call)
            },
            BoundExpr::IsNull(n) => BoundExpr::IsNull(
                BoundIsNull { expr: Box::new(self.rewrite_expr(&n.expr)) },
            ),
            BoundExpr::Alias(a) => BoundExpr::Alias(
                BoundAlias { alias: a.alias.clone(), expr: Box::new(self.rewrite_expr(&a.expr)) },
            ),
            _ => expr.clone(),
        }
    }

    /// Resolves each expression of a list.
    pub fn rewrite_exprs(&self, exprs: &Vec<BoundExpr>) -> (result: Vec<BoundExpr>)
        requires
            all_resolve(exprs_view(exprs@), self@),
        ensures
            exprs_view(result@) == resolved_exprs(exprs_view(exprs@), self@),
    {
        let mut result: Vec<BoundExpr> = Vec::new();
        let mut i: usize = 0;
        while i < exprs.len()
            invariant
                i <= exprs.len(),
                result.len() == i,
                all_resolve(exprs_view(exprs@), self@),
                forall|j: int| 0 <= j < i ==> result[j]@ == resolved_expr(exprs[j]@, self@),
            decreases exprs.len() - i,
        {
            assert(resolves(exprs_view(exprs@)[i as int], self@));
            result.push(self.rewrite_expr(&exprs[i]));
            i += 1;
        }
        assert(exprs_view(result@) =~= resolved_exprs(exprs_view(exprs@), self@));
        result
    }
}

/// The bindings that stand for a list of expressions, one for one.
fn bind_all(exprs: &Vec<BoundExpr>) -> (bindings: Vec<Option<BoundExpr>>)
    ensures
        bindings_view(bindings@) == bound(exprs_view(exprs@)),
{
    let mut bindings: Vec<Option<BoundExpr>> = Vec::new();
    let mut i: usize = 0;
    while i < exprs.len()
        invariant
            i <= exprs.len(),
            bindings.len() == i,
            forall|j: int| 0 <= j < i ==> binding_view(bindings[j]) == Some(exprs[j]@),
        decreases exprs.len() - i,
    {
        bindings.push(Some(exprs[i].clone()));
        i += 1;
    }
    assert(bindings_view(bindings@) =~= bound(exprs_view(exprs@)));
    bindings
}

/// Resolves the select list of a projection over an aggregation with the
/// group keys `group_keys`.
pub fn resolve_select_list(exprs: &Vec<BoundExpr>, group_keys: &Vec<BoundExpr>) -> (result: Vec<
    BoundExpr,
>)
    requires
        select_list_typed(exprs_view(exprs@), exprs_view(group_keys@)),
        group_keys.len() + select_agg_count_upto(
            exprs_view(exprs@),
            exprs_view(group_keys@),
            exprs.len() as nat,
        ) <= usize::MAX,
    ensures
        exprs_view(result@) == select_list_resolved(exprs_view(exprs@), exprs_view(group_keys@)),
{
    let ghost given = exprs_view(exprs@);
    let ghost keys = exprs_view(group_keys@);
    let mut resolver = AggInputRefResolver::new(group_keys.len());
    let mut select_list = clone_exprs(exprs);
    let mut i: usize = 0;
    while i < select_list.len()
        invariant
            i <= select_list.len(),
            select_list.len() == given.len(),
            exprs_view(group_keys@) == keys,
            select_list_typed(given, keys),
            keys.len() + select_agg_count_upto(given, keys, given.len()) <= usize::MAX,
            resolver.agg_start_index == keys.len() + select_agg_count_upto(given, keys, i as nat),
            forall|j: int|
                0 <= j < i ==> (#[trigger] select_list[j])@ == select_resolved(
                    given[j],
                    keys,
                    keys.len() + select_agg_count_upto(given, keys, j as nat),
                ),
            forall|j: int|
                i <= j < select_list.len() ==> (#[trigger] select_list[j])@ == given[j],
        decreases select_list.len() - i,
    {
        proof {
            lemma_select_agg_count_grows(given, keys, (i + 1) as nat, given.len());
            assert(select_typed(given[i as int], keys));
            assert(select_list[i as int]@ == given[i as int]);
        }
        resolver.resolve_select_expr(&mut select_list[i], group_keys);
        i += 1;
    }
    assert(exprs_view(select_list@) =~= select_list_resolved(given, keys));
    select_list
}

impl InputRefResolver {
    /// The expressions that the bindings stand for, where each stands for
    /// one.
    fn bound_exprs(&self) -> (exprs: Vec<BoundExpr>)
        requires
            forall|i: int| 0 <= i < self@.len() ==> self@[i] is Some,
        ensures
            bound(exprs_view(exprs@)) == self@,
    {
        let mut exprs: Vec<BoundExpr> = Vec::new();
        let mut k: usize = 0;
        while k < self.bindings.len()
            invariant
                k <= self.bindings.len(),
                exprs.len() == k,
                self@.len() == self.bindings.len(),
                forall|i: int| 0 <= i < self@.len() ==> self@[i] is Some,
                forall|j: int| 0 <= j < k ==> Some(exprs[j]@) == self@[j],
            decreases self.bindings.len() - k,
        {
            assert(self@[k as int] is Some);
            assert(self@[k as int] == binding_view(self.bindings[k as int]));
            exprs.push(self.bindings[k].as_ref().unwrap().clone());
            k += 1;
        }
        assert(bound(exprs_view(exprs@)) =~= self@);
        exprs
    }

    /// Resolves a plan, and leaves the bindings of the rows that it yields.
    pub fn rewrite_plan(&mut self, plan: LogicalPlanRef) -> (result: LogicalPlanRef)
        requires
            resolvable(plan@, old(self)@),
        ensures
            result@ == resolved_plan(plan@, old(self)@),
            final(self)@ == output_bindings(plan@, old(self)@),
        decreases plan,
    {
        match &*plan {
            LogicalPlan::LogicalJoin(join) => self.rewrite_logical_join(join),
            LogicalPlan::LogicalGet(scan) => self.rewrite_logical_table_scan(scan),
            LogicalPlan::LogicalProjection(proj) => self.rewrite_logical_projection(proj),
            LogicalPlan::LogicalAggregate(agg) => self.rewrite_logical_aggregate(agg),
            LogicalPlan::LogicalFilter(filter) => self.rewrite_logical_filter(filter),
            LogicalPlan::LogicalOrder(order) => self.rewrite_logical_order(order),
            LogicalPlan::LogicalValues(values) => self.rewrite_logical_values(values),
            LogicalPlan::LogicalInsert(node) => {
                let child = self.rewrite_plan(node.child.clone());
                node.clone_with_children(only_child(child))
            },
            LogicalPlan::LogicalLimit(node) => {
                let child = self.rewrite_plan(node.child.clone());
                node.clone_with_children(only_child(child))
            },
            LogicalPlan::LogicalExplain(node) => {
                let child = self.rewrite_plan(node.child.clone());
                node.clone_with_children(only_child(child))
            },
            LogicalPlan::LogicalDelete(node) => {
                let child = self.rewrite_plan(node.child.clone());
                node.clone_with_children(only_child(child))
            },
            LogicalPlan::LogicalCopyToFile(node) => {
                let child = self.rewrite_plan(node.child.clone());
                node.clone_with_children(only_child(child))
            },
            _ => plan.clone(),
        }
    }

    /// A join yields the columns of its left side, then those of its right
    /// side. The right side is resolved on its own, from no bindings; the
    /// condition against the columns of both.
    pub fn rewrite_logical_join(&mut self, join: &LogicalJoin) -> (result: LogicalPlanRef)
        requires
            resolvable(join@, old(self)@),
        ensures
            result@ == resolved_plan(join@, old(self)@),
            final(self)@ == output_bindings(join@, old(self)@),
        decreases join,
    {
        let left_plan = self.rewrite_plan(join.left_plan.clone());
        let mut resolver = InputRefResolver::default();
        let right_plan = resolver.rewrite_plan(join.right_plan.clone());
        let ghost left = self@;
        let ghost right = resolver@;
        self.bindings.append(&mut resolver.bindings);
        assert(self@ =~= left + right);
        let join_op = match &join.join_op {
            BoundJoinOperator::Inner(BoundJoinConstraint::On(expr)) => BoundJoinOperator::Inner(
                BoundJoinConstraint::On(self.rewrite_expr(expr)),
            ),
            BoundJoinOperator::LeftOuter(BoundJoinConstraint::On(expr)) => {
                BoundJoinOperator::LeftOuter(BoundJoinConstraint::On(self.rewrite_expr(expr)))
            },
            BoundJoinOperator::RightOuter(BoundJoinConstraint::On(expr)) => {
                BoundJoinOperator::RightOuter(BoundJoinConstraint::On(self.rewrite_expr(expr)))
            },
        };
        Rc::new(LogicalPlan::LogicalJoin(LogicalJoin { left_plan, right_plan, join_op }))
    }

    /// A scan binds each of its columns to a reference to that column by
    /// name.
    pub fn rewrite_logical_table_scan(&mut self, plan: &LogicalGet) -> (result: LogicalPlanRef)
        ensures
            result@ == plan@,
            final(self)@ == output_bindings(plan@, old(self)@),
    {
        let mut bindings: Vec<Option<BoundExpr>> = Vec::new();
        let mut i: usize = 0;
        while i < plan.column_ids.len() && i < plan.column_descs.len()
            invariant
                i <= plan.column_ids.len(),
                i <= plan.column_descs.len(),
                bindings.len() == i,
                forall|j: int|
                    0 <= j < i ==> binding_view(bindings[j]) == Some(
                        ExprView::ColumnRef {
                            column_ref_id: ColumnRefId::of_table(
                                plan.table_ref_id,
                                plan.column_ids[j],
                            ),
                            is_primary_key: plan.column_descs[j].is_primary,
                            desc: plan.column_descs[j]@,
                        },
                    ),
            decreases plan.column_ids.len() - i,
        {
            let col_desc = &plan.column_descs[i];
            bindings.push(
                Some(
                    BoundExpr::ColumnRef(
                        BoundColumnRef {
                            column_ref_id: ColumnRefId::from_table(
                                plan.table_ref_id,
                                plan.column_ids[i],
                            ),
                            is_primary_key: col_desc.is_primary(),
                            desc: col_desc.clone(),
                        },
                    ),
                ),
            );
            i += 1;
        }
        self.bindings = bindings;
        assert(self@ =~= output_bindings(plan@, old(self)@));
        Rc::new(LogicalPlan::LogicalGet(plan.clone()))
    }

    /// A projection binds its expressions as they stand before resolution.
    /// Over an aggregation its select list is first taken to the positions
    /// of the group keys and of the aggregate results.
    pub fn rewrite_logical_projection(&mut self, proj: &LogicalProjection) -> (result:
        LogicalPlanRef)
        requires
            resolvable(proj@, old(self)@),
        ensures
            result@ == resolved_plan(proj@, old(self)@),
            final(self)@ == output_bindings(proj@, old(self)@),
        decreases proj,
    {
        let new_child = self.rewrite_plan(proj.child.clone());
        let bindings = bind_all(&proj.project_expressions);
        let ghost exprs = exprs_view(proj.project_expressions@);
        let project_expressions = match &*new_child {
            LogicalPlan::LogicalAggregate(_) => {
                let ghost keys = proj.child@->Aggregate_group_keys;
                assert(proj.child@ is Aggregate);
                assert(self@ == bound(keys));
                let group_keys = self.bound_exprs();
                assert(exprs_view(group_keys@) =~= keys) by {
                    assert(bound(exprs_view(group_keys@)).len() == bound(keys).len());
                    assert forall|i: int| 0 <= i < keys.len() implies exprs_view(group_keys@)[i]
                        == keys[i] by {
                        assert(bound(exprs_view(group_keys@))[i] == bound(keys)[i]);
                    }
                }
                let select_list = resolve_select_list(&proj.project_expressions, &group_keys);
                self.rewrite_exprs(&select_list)
            },
            _ => self.rewrite_exprs(&proj.project_expressions),
        };
        self.bindings = bindings;
        Rc::new(
            LogicalPlan::LogicalProjection(
                LogicalProjection { project_expressions, child: new_child },
            ),
        )
    }

    /// An aggregation binds its group keys as they stand before resolution.
    /// The results of its calls get no binding.
    pub fn rewrite_logical_aggregate(&mut self, agg: &LogicalAggregate) -> (result:
        LogicalPlanRef)
        requires
            resolvable(agg@, old(self)@),
        ensures
            result@ == resolved_plan(agg@, old(self)@),
            final(self)@ == output_bindings(agg@, old(self)@),
        decreases agg,
    {
        let new_child = self.rewrite_plan(agg.child.clone());
        let bindings = bind_all(&agg.group_keys);
        let ghost calls = agg_calls_view(agg.agg_calls@);
        let mut agg_calls: Vec<BoundAggCall> = Vec::new();
        let mut i: usize = 0;
        while i < agg.agg_calls.len()
            invariant
                i <= agg.agg_calls.len(),
                agg_calls.len() == i,
                calls == agg_calls_view(agg.agg_calls@),
                forall|j: int| 0 <= j < calls.len() ==> all_resolve((#[trigger] calls[j]).args, self@),
                forall|j: int|
                    0 <= j < i ==> agg_calls[j]@ == (AggCallView {
                        kind: calls[j].kind,
                        args: resolved_exprs(calls[j].args, self@),
                        return_type: calls[j].return_type,
                    }),
            decreases agg.agg_calls.len() - i,
        {
            let call = &agg.agg_calls[i];
            assert(all_resolve(calls[i as int].args, self@));
            agg_calls.push(
                BoundAggCall {
                    kind: call.kind,
                    args: self.rewrite_exprs(&call.args),
                    return_type: call.return_type,
                },
            );
            i += 1;
        }
        assert(agg_calls_view(agg_calls@) =~= resolved_agg_calls(calls, self@));
        let group_keys = self.rewrite_exprs(&agg.group_keys);
        self.bindings = bindings;
        Rc::new(
            LogicalPlan::LogicalAggregate(
                LogicalAggregate { agg_calls, group_keys, child: new_child },
            ),
        )
    }

    /// A filter passes on the columns of its child.
    pub fn rewrite_logical_filter(&mut self, plan: &LogicalFilter) -> (result: LogicalPlanRef)
        requires
            resolvable(plan@, old(self)@),
        ensures
            result@ == resolved_plan(plan@, old(self)@),
            final(self)@ == output_bindings(plan@, old(self)@),
        decreases plan,
    {
        let child = self.rewrite_plan(plan.child.clone());
        let expr = self.rewrite_expr(&plan.expr);
        Rc::new(LogicalPlan::LogicalFilter(LogicalFilter { expr, child }))
    }

    /// An ordering passes on the columns of its child.
    pub fn rewrite_logical_order(&mut self, plan: &LogicalOrder) -> (result: LogicalPlanRef)
        requires
            resolvable(plan@, old(self)@),
        ensures
            result@ == resolved_plan(plan@, old(self)@),
            final(self)@ == output_bindings(plan@, old(self)@),
        decreases plan,
    {
        let child = self.rewrite_plan(plan.child.clone());
        let ghost keys = order_bys_view(plan.comparators@);
        let mut comparators: Vec<BoundOrderBy> = Vec::new();
        let mut i: usize = 0;
        while i < plan.comparators.len()
            invariant
                i <= plan.comparators.len(),
                comparators.len() == i,
                keys == order_bys_view(plan.comparators@),
                forall|j: int| 0 <= j < keys.len() ==> resolves((#[trigger] keys[j]).expr, self@),
                forall|j: int|
                    0 <= j < i ==> comparators[j]@ == (OrderByView {
                        expr: resolved_expr(keys[j].expr, self@),
                        descending: keys[j].descending,
                    }),
            decreases plan.comparators.len() - i,
        {
            let key = &plan.comparators[i];
            assert(resolves(keys[i as int].expr, self@));
            comparators.push(
                BoundOrderBy { expr: self.rewrite_expr(&key.expr), descending: key.descending },
            );
            i += 1;
        }
        assert(order_bys_view(comparators@) =~= resolved_order_bys(keys, self@));
        Rc::new(LogicalPlan::LogicalOrder(LogicalOrder { comparators, child }))
    }

    /// Rows of values define no columns; their expressions are resolved
    /// against the bindings as they stand.
    pub fn rewrite_logical_values(&mut self, plan: &LogicalValues) -> (result: LogicalPlanRef)
        requires
            resolvable(plan@, old(self)@),
        ensures
            result@ == resolved_plan(plan@, old(self)@),
            final(self)@ == output_bindings(plan@, old(self)@),
    {
        let ghost rows = rows_view(plan.values@);
        let mut values: Vec<Vec<BoundExpr>> = Vec::new();
        let mut i: usize = 0;
        while i < plan.values.len()
            invariant
                i <= plan.values.len(),
                values.len() == i,
                rows == rows_view(plan.values@),
                forall|j: int| 0 <= j < rows.len() ==> all_resolve(#[trigger] rows[j], self@),
                forall|j: int|
                    0 <= j < i ==> exprs_view(values[j]@) == resolved_exprs(rows[j], self@),
            decreases plan.values.len() - i,
        {
            assert(all_resolve(rows[i as int], self@));
            values.push(self.rewrite_exprs(&plan.values[i]));
            i += 1;
        }
        assert(rows_view(values@) =~= resolved_rows(rows, self@));
        Rc::new(
            LogicalPlan::LogicalValues(
                LogicalValues { column_types: clone_types(&plan.column_types), values },
            ),
        )
    }
}

/// The aggregate calls of a longer run of a select list are at least as many.
pub proof fn lemma_select_agg_count_grows(
    exprs: Seq<ExprView>,
    keys: Seq<ExprView>,
    n: nat,
    m: nat,
)
    requires
        n <= m,
    ensures
        select_agg_count_upto(exprs, keys, n) <= select_agg_count_upto(exprs, keys, m),
    decreases m,
{
    if n < m {
        lemma_select_agg_count_grows(exprs, keys, n, (m - 1) as nat);
    }
}

/// Whether each subexpression of a select expression that is taken for a
/// group key has a type.
pub fn select_expr_typed(expr: &BoundExpr, group_keys: &Vec<BoundExpr>) -> (typed: bool)
    ensures
        typed == select_typed(expr@, exprs_view(group_keys@)),
    decreases expr,
{
    if position_of(group_keys, expr).is_some() {
        return expr.return_type().is_some();
    }
    match expr {
        BoundExpr::BinaryOp(b) => select_expr_typed(&b.left_expr, group_keys) && select_expr_typed(
            &b.right_expr,
            group_keys,
        ),
        BoundExpr::UnaryOp(u) => select_expr_typed(&u.expr, group_keys),
        BoundExpr::TypeCast(t) => select_expr_typed(&t.expr, group_keys),
        BoundExpr::IsNull(n) => select_expr_typed(&n.expr, group_keys),
        BoundExpr::Alias(a) => select_expr_typed(&a.expr, group_keys),
        _ => true,
    }
}

/// Whether what was counted is the number of aggregate calls of a select
/// expression that get a position, or nothing where that number does not fit
/// the machine word added to `base`.
pub open spec fn is_agg_count(
    counted: Option<usize>,
    base: usize,
    expr: ExprView,
    keys: Seq<ExprView>,
) -> bool {
    match counted {
        Some(total) => total == base + select_agg_count(expr, keys),
        None => base + select_agg_count(expr, keys) > usize::MAX,
    }
}

/// Adds to `base` the number of aggregate calls of a select expression that
/// get a position.
pub fn count_select_aggs(base: usize, expr: &BoundExpr, group_keys: &Vec<BoundExpr>) -> (counted:
    Option<usize>)
    ensures
        is_agg_count(counted, base, expr@, exprs_view(group_keys@)),
    decreases expr,
{
    if position_of(group_keys, expr).is_some() {
        return Some(base);
    }
    match expr {
        BoundExpr::AggCall(_) => base.checked_add(1),
        BoundExpr::BinaryOp(b) => match count_select_aggs(base, &b.left_expr, group_keys) {
            Some(counted) => count_select_aggs(counted, &b.right_expr, group_keys),
            None => None,
        },
        BoundExpr::UnaryOp(u) => count_select_aggs(base, &u.expr, group_keys),
        BoundExpr::TypeCast(t) => count_select_aggs(base, &t.expr, group_keys),
        BoundExpr::IsNull(n) => count_select_aggs(base, &n.expr, group_keys),
        BoundExpr::Alias(a) => count_select_aggs(base, &a.expr, group_keys),
        _ => Some(base),
    }
}

/// Whether the select list of a projection over an aggregation with the
/// group keys `group_keys` can be taken to positions: every subexpression
/// taken for a group key has a type, and the positions fit the machine word.
pub fn select_list_resolves(exprs: &Vec<BoundExpr>, group_keys: &Vec<BoundExpr>) -> (ok: bool)
    ensures
        ok == (select_list_typed(exprs_view(exprs@), exprs_view(group_keys@)) && group_keys.len()
            + select_agg_count_upto(
            exprs_view(exprs@),
            exprs_view(group_keys@),
            exprs.len() as nat,
        ) <= usize::MAX),
{
    let ghost given = exprs_view(exprs@);
    let ghost keys = exprs_view(group_keys@);
    let mut total: usize = group_keys.len();
    let mut i: usize = 0;
    while i < exprs.len()
        invariant
            i <= exprs.len(),
            given == exprs_view(exprs@),
            keys == exprs_view(group_keys@),
            total == keys.len() + select_agg_count_upto(given, keys, i as nat),
            forall|j: int| 0 <= j < i ==> select_typed(#[trigger] given[j], keys),
        decreases exprs.len() - i,
    {
        if !select_expr_typed(&exprs[i], group_keys) {
            assert(!select_typed(given[i as int], keys));
            return false;
        }
        match count_select_aggs(total, &exprs[i], group_keys) {
            Some(counted) => {
                total = counted;
            },
            None => {
                proof {
                    lemma_select_agg_count_grows(given, keys, (i + 1) as nat, given.len());
                }
                return false;
            },
        }
        i += 1;
    }
    true
}

impl InputRefResolver {
    /// Whether every reference to a column by name in an expression has a
    /// binding equal to it.
    pub fn expr_resolves(&self, expr: &BoundExpr) -> (ok: bool)
        ensures
            ok == resolves(expr@, self@),
        decreases expr,
    {
        match expr {
            BoundExpr::ColumnRef(_) => self.binding_position(expr).is_some(),
            BoundExpr::BinaryOp(b) => self.expr_resolves(&b.left_expr) && self.expr_resolves(
                &b.right_expr,
            ),
            BoundExpr::UnaryOp(u) => self.expr_resolves(&u.expr),
            BoundExpr::TypeCast(t) => self.expr_resolves(&t.expr),
            BoundExpr::AggCall(a) => {
                proof {
                    lemma_agg_call_view(*a);
                }
                let mut i: usize = 0;
                while i < a.args.len()
                    invariant
                        i <= a.args.len(),
                        expr@ == ExprView::AggCall(a@),
                        decreases_to!(expr => a.args),
                        forall|j: int| 0 <= j < i ==> resolves(#[trigger] a@.args[j], self@),
                    decreases a.args.len() - i,
                {
                    let arg = &a.args[i];
                    if !self.expr_resolves(arg) {
                        assert(!resolves(a@.args[i as int], self@));
                        return false;
                    }
                    i += 1;
                }
                true
            },
            BoundExpr::IsNull(n) => self.expr_resolves(&n.expr),
            BoundExpr::Alias(a) => self.expr_resolves(&a.expr),
            _ => true,
        }
    }

    /// Whether every expression of a list resolves.
    pub fn exprs_resolve(&self, exprs: &Vec<BoundExpr>) -> (ok: bool)
        ensures
            ok == all_resolve(exprs_view(exprs@), self@),
    {
        let mut i: usize = 0;
        while i < exprs.len()
            invariant
                i <= exprs.len(),
                forall|j: int| 0 <= j < i ==> resolves(#[trigger] exprs_view(exprs@)[j], self@),
            decreases exprs.len() - i,
        {
            if !self.expr_resolves(&exprs[i]) {
                assert(!resolves(exprs_view(exprs@)[i as int], self@));
                return false;
            }
            i += 1;
        }
        true
    }

    /// Whether a plan can be resolved from the bindings as they stand.
    pub fn can_resolve(&self, plan: &LogicalPlan) -> (ok: bool)
        ensures
            ok == resolvable(plan@, self@),
    {
        let mut scratch = InputRefResolver { bindings: self.bindings.clone() };
        assert(scratch@ =~= self@);
        scratch.check_plan(plan)
    }

    /// Whether a plan can be resolved; where it can, the bindings are left as
    /// resolution would leave them.
    fn check_plan(&mut self, plan: &LogicalPlan) -> (ok: bool)
        ensures
            ok == resolvable(plan@, old(self)@),
            ok ==> final(self)@ == output_bindings(plan@, old(self)@),
        decreases plan,
    {
        match plan {
            LogicalPlan::LogicalGet(scan) => {
                self.rewrite_logical_table_scan(scan);
                true
            },
            LogicalPlan::LogicalValues(values) => {
                let ghost rows = rows_view(values.values@);
                let mut i: usize = 0;
                while i < values.values.len()
                    invariant
                        i <= values.values.len(),
                        rows == rows_view(values.values@),
                        *plan == LogicalPlan::LogicalValues(*values),
                        self@ == old(self)@,
                        forall|j: int| 0 <= j < i ==> all_resolve(#[trigger] rows[j], self@),
                    decreases values.values.len() - i,
                {
                    if !self.exprs_resolve(&values.values[i]) {
                        assert(plan@->Values_values == rows);
                        assert(!all_resolve(plan@->Values_values[i as int], old(self)@));
                        return false;
                    }
                    i += 1;
                }
                true
            },
            LogicalPlan::LogicalJoin(join) => {
                if !self.check_plan(&join.left_plan) {
                    return false;
                }
                let mut resolver = InputRefResolver::default();
                if !resolver.check_plan(&join.right_plan) {
                    return false;
                }
                let ghost left = self@;
                let ghost right = resolver@;
                self.bindings.append(&mut resolver.bindings);
                assert(self@ =~= left + right);
                let ok = match &join.join_op {
                    BoundJoinOperator::Inner(BoundJoinConstraint::On(expr)) => self.expr_resolves(
                        expr,
                    ),
                    BoundJoinOperator::LeftOuter(BoundJoinConstraint::On(expr)) => {
                        self.expr_resolves(expr)
                    },
                    BoundJoinOperator::RightOuter(BoundJoinConstraint::On(expr)) => {
                        self.expr_resolves(expr)
                    },
                };
                ok
            },
            LogicalPlan::LogicalFilter(filter) => {
                self.check_plan(&filter.child) && self.expr_resolves(&filter.expr)
            },
            LogicalPlan::LogicalOrder(order) => {
                if !self.check_plan(&order.child) {
                    return false;
                }
                let ghost keys = order_bys_view(order.comparators@);
                let mut i: usize = 0;
                while i < order.comparators.len()
                    invariant
                        i <= order.comparators.len(),
                        keys == order_bys_view(order.comparators@),
                        *plan == LogicalPlan::LogicalOrder(*order),
                        resolvable(order.child@, old(self)@),
                        self@ == output_bindings(order.child@, old(self)@),
                        forall|j: int| 0 <= j < i ==> resolves((#[trigger] keys[j]).expr, self@),
                    decreases order.comparators.len() - i,
                {
                    if !self.expr_resolves(&order.comparators[i].expr) {
                        assert(!resolves(keys[i as int].expr, self@));
                        return false;
                    }
                    i += 1;
                }
                true
            },
            LogicalPlan::LogicalProjection(proj) => {
                if !self.check_plan(&proj.child) {
                    return false;
                }
                let ok = match &*proj.child {
                    LogicalPlan::LogicalAggregate(_) => {
                        let ghost keys = proj.child@->Aggregate_group_keys;
                        assert(self@ == bound(keys));
                        let group_keys = self.bound_exprs();
                        assert(exprs_view(group_keys@) =~= keys) by {
                            assert(bound(exprs_view(group_keys@)).len() == bound(keys).len());
                            assert forall|i: int| 0 <= i < keys.len() implies exprs_view(
                                group_keys@,
                            )[i] == keys[i] by {
                                assert(bound(exprs_view(group_keys@))[i] == bound(keys)[i]);
                            }
                        }
                        if select_list_resolves(&proj.project_expressions, &group_keys) {
                            let select_list = resolve_select_list(
                                &proj.project_expressions,
                                &group_keys,
                            );
                            self.exprs_resolve(&select_list)
                        } else {
                            false
                        }
                    },
                    _ => self.exprs_resolve(&proj.project_expressions),
                };
                self.bindings = bind_all(&proj.project_expressions);
                ok
            },
            LogicalPlan::LogicalAggregate(agg) => {
                if !self.check_plan(&agg.child) {
                    return false;
                }
                let ghost calls = agg_calls_view(agg.agg_calls@);
                let mut i: usize = 0;
                while i < agg.agg_calls.len()
                    invariant
                        i <= agg.agg_calls.len(),
                        calls == agg_calls_view(agg.agg_calls@),
                        *plan == LogicalPlan::LogicalAggregate(*agg),
                        resolvable(agg.child@, old(self)@),
                        self@ == output_bindings(agg.child@, old(self)@),
                        forall|j: int| 0 <= j < i ==> all_resolve((#[trigger] calls[j]).args, self@),
                    decreases agg.agg_calls.len() - i,
                {
                    if !self.exprs_resolve(&agg.agg_calls[i].args) {
                        assert(!all_resolve(calls[i as int].args, self@));
                        return false;
                    }
                    i += 1;
                }
                let ok = self.exprs_resolve(&agg.group_keys);
                self.bindings = bind_all(&agg.group_keys);
                ok
            },
            LogicalPlan::LogicalInsert(node) => self.check_plan(&node.child),
            LogicalPlan::LogicalLimit(node) => self.check_plan(&node.child),
            LogicalPlan::LogicalExplain(node) => self.check_plan(&node.child),
            LogicalPlan::LogicalDelete(node) => self.check_plan(&node.child),
            LogicalPlan::LogicalCopyToFile(node) => self.check_plan(&node.child),
            _ => true,
        }
    }
}

} // verus!
