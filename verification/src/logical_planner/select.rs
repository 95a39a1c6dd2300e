//! `select`.
//!
//! A `select` statement is planned, from the bottom up, as
//!
//! - a scan of the table, joins of several, or a dummy where there is no `from`,
//! - a filter, where there is a `where`,
//! - an aggregation, where the select list holds an aggregate call,
//! - a projection of the select list,
//! - an ordering, unless the scan already yields the rows in order,
//! - a limit, where there is a `limit` or an `offset`.
//!
//! Aggregate calls are taken out of the select list only. The keys of the
//! ordering are left as they stand: an ordering by an aggregate is planned as
//! written, and is no concern of the aggregation.

use std::rc::Rc;
use vstd::prelude::*;
use crate::binder::agg_call::agg_calls_view;
use crate::binder::agg_call::clone_agg_calls;
use crate::binder::agg_call::AggCallView;
use crate::binder::agg_call::BoundAggCall;
use crate::binder::expression::clone_exprs;
use crate::binder::expression::exprs_view;
use crate::binder::expression::lemma_agg_call_view;
use crate::binder::expression::BoundExpr;
use crate::binder::expression::BoundInputRef;
use crate::binder::expression::ExprView;
use crate::binder::statement::clone_order_bys;
use crate::binder::statement::order_bys_view;
use crate::binder::statement::BoundJoinOperator;
use crate::binder::statement::BoundOrderBy;
use crate::binder::statement::BoundSelect;
use crate::binder::statement::clause_view;
use crate::binder::statement::BoundTableRef;
use crate::binder::statement::SelectView;
use crate::binder::statement::TableRefView;
use crate::catalog::clone_column_descs;
use crate::catalog::clone_column_ids;
use crate::catalog::column_descs_view;
use crate::catalog::ColumnDesc;
use crate::catalog::ColumnId;
use crate::catalog::TableRefId;
use crate::logical_planner::planned_view;
use crate::logical_planner::LogicalPlan;
use crate::logical_planner::LogicalPlanError;
use crate::logical_planner::LogicalPlanErrorView;
use crate::logical_planner::LogicalPlanRef;
use crate::logical_planner::LogicalPlaner;
use crate::logical_planner::LogicalPlanTrait;
use crate::logical_planner::PlanChildren;
use crate::logical_planner::PlanView;

verus! {

/// The logical plan that yields one empty row.
#[derive(Clone, Copy, Debug, PartialEq, Eq, Structural)]
pub struct LogicalDummy;

impl LogicalDummy {
    pub open spec fn model(&self) -> PlanView {
        PlanView::Dummy
    }
}

impl View for LogicalDummy {
    type V = PlanView;

    open spec fn view(&self) -> PlanView {
        self.model()
    }
}

impl LogicalPlanTrait for LogicalDummy {
    open spec fn plan_view(&self) -> PlanView {
        self.model()
    }

    fn children(&self) -> (children: PlanChildren) {
        PlanChildren::new()
    }

    fn clone_with_children(&self, children: Vec<LogicalPlanRef>) -> (plan: LogicalPlanRef) {
        Rc::new(LogicalPlan::LogicalDummy(self.clone()))
    }
}

/// The logical plan of a table scan.
#[derive(Debug, PartialEq)]
pub struct LogicalGet {
    pub table_ref_id: TableRefId,
    pub column_ids: Vec<ColumnId>,
    pub column_descs: Vec<ColumnDesc>,
    pub with_row_handler: bool,
    pub is_sorted: bool,
}

impl LogicalGet {
    pub open spec fn model(&self) -> PlanView {
        PlanView::Get {
            table_ref_id: self.table_ref_id,
            column_ids: self.column_ids@,
            column_descs: column_descs_view(self.column_descs@),
            with_row_handler: self.with_row_handler,
            is_sorted: self.is_sorted,
        }
    }
}

impl View for LogicalGet {
    type V = PlanView;

    open spec fn view(&self) -> PlanView {
        self.model()
    }
}

impl Clone for LogicalGet {
    fn clone(&self) -> (copy: LogicalGet)
        ensures
            copy@ == self@,
    {
        LogicalGet {
            table_ref_id: self.table_ref_id,
            column_ids: clone_column_ids(&self.column_ids),
            column_descs: clone_column_descs(&self.column_descs),
            with_row_handler: self.with_row_handler,
            is_sorted: self.is_sorted,
        }
    }
}

impl LogicalPlanTrait for LogicalGet {
    open spec fn plan_view(&self) -> PlanView {
        self.model()
    }

    fn children(&self) -> (children: PlanChildren) {
        PlanChildren::new()
    }

    fn clone_with_children(&self, children: Vec<LogicalPlanRef>) -> (plan: LogicalPlanRef) {
        Rc::new(LogicalPlan::LogicalGet(self.clone()))
    }
}

/// The logical plan of a join. It records the two sides and the operator;
/// the order of joins and their algorithm are left to later passes.
#[derive(Debug, PartialEq)]
pub struct LogicalJoin {
    pub left_plan: LogicalPlanRef,
    pub right_plan: LogicalPlanRef,
    pub join_op: BoundJoinOperator,
}

impl LogicalJoin {
    pub open spec fn model(&self) -> PlanView
        decreases self,
    {
        PlanView::Join {
            left_plan: Box::new(self.left_plan.model()),
            right_plan: Box::new(self.right_plan.model()),
            join_op: self.join_op@,
        }
    }
}

impl View for LogicalJoin {
    type V = PlanView;

    open spec fn view(&self) -> PlanView {
        self.model()
    }
}

impl Clone for LogicalJoin {
    fn clone(&self) -> (copy: LogicalJoin)
        ensures
            copy@ == self@,
    {
        LogicalJoin {
            left_plan: self.left_plan.clone(),
            right_plan: self.right_plan.clone(),
            join_op: self.join_op.clone(),
        }
    }
}

impl LogicalPlanTrait for LogicalJoin {
    open spec fn plan_view(&self) -> PlanView {
        self.model()
    }

    fn children(&self) -> (children: PlanChildren) {
        let mut children = PlanChildren::new();
        children.push(self.left_plan.clone());
        children.push(self.right_plan.clone());
        assert(children@ =~= self.model().children());
        children
    }

    fn clone_with_children(&self, children: Vec<LogicalPlanRef>) -> (plan: LogicalPlanRef) {
        let mut new = self.clone();
        new.left_plan = children[0].clone();
        new.right_plan = children[1].clone();
        Rc::new(LogicalPlan::LogicalJoin(new))
    }
}

/// The logical plan of a filter.
#[derive(Debug, PartialEq)]
pub struct LogicalFilter {
    pub expr: BoundExpr,
    pub child: LogicalPlanRef,
}

impl LogicalFilter {
    pub open spec fn model(&self) -> PlanView
        decreases self,
    {
        PlanView::Filter { expr: self.expr@, child: Box::new(self.child.model()) }
    }
}

impl View for LogicalFilter {
    type V = PlanView;

    open spec fn view(&self) -> PlanView {
        self.model()
    }
}

impl Clone for LogicalFilter {
    fn clone(&self) -> (copy: LogicalFilter)
        ensures
            copy@ == self@,
    {
        LogicalFilter { expr: self.expr.clone(), child: self.child.clone() }
    }
}

impl LogicalPlanTrait for LogicalFilter {
    open spec fn plan_view(&self) -> PlanView {
        self.model()
    }

    fn children(&self) -> (children: PlanChildren) {
        let mut children = PlanChildren::new();
        children.push(self.child.clone());
        assert(children@ =~= self.model().children());
        children
    }

    fn clone_with_children(&self, children: Vec<LogicalPlanRef>) -> (plan: LogicalPlanRef) {
        let mut new = self.clone();
        new.child = children[0].clone();
        Rc::new(LogicalPlan::LogicalFilter(new))
    }
}

/// The logical plan of a projection.
#[derive(Debug, PartialEq)]
pub struct LogicalProjection {
    pub project_expressions: Vec<BoundExpr>,
    pub child: LogicalPlanRef,
}

impl LogicalProjection {
    pub open spec fn model(&self) -> PlanView
        decreases self,
    {
        PlanView::Projection {
            project_expressions: exprs_view(self.project_expressions@),
            child: Box::new(self.child.model()),
        }
    }
}

impl View for LogicalProjection {
    type V = PlanView;

    open spec fn view(&self) -> PlanView {
        self.model()
    }
}

impl Clone for LogicalProjection {
    fn clone(&self) -> (copy: LogicalProjection)
        ensures
            copy@ == self@,
    {
        LogicalProjection {
            project_expressions: clone_exprs(&self.project_expressions),
            child: self.child.clone(),
        }
    }
}

impl LogicalPlanTrait for LogicalProjection {
    open spec fn plan_view(&self) -> PlanView {
        self.model()
    }

    fn children(&self) -> (children: PlanChildren) {
        let mut children = PlanChildren::new();
        children.push(self.child.clone());
        assert(children@ =~= self.model().children());
        children
    }

    fn clone_with_children(&self, children: Vec<LogicalPlanRef>) -> (plan: LogicalPlanRef) {
        let mut new = self.clone();
        new.child = children[0].clone();
        Rc::new(LogicalPlan::LogicalProjection(new))
    }
}

/// The logical plan of an aggregation. Its rows hold the group keys first,
/// then the results of the aggregate calls, each in the order of its list.
#[derive(Debug, PartialEq)]
pub struct LogicalAggregate {
    pub agg_calls: Vec<BoundAggCall>,
    /// The keys to group by; none for one group of all rows.
    pub group_keys: Vec<BoundExpr>,
    pub child: LogicalPlanRef,
}

impl LogicalAggregate {
    pub open spec fn model(&self) -> PlanView
        decreases self,
    {
        PlanView::Aggregate {
            agg_calls: agg_calls_view(self.agg_calls@),
            group_keys: exprs_view(self.group_keys@),
            child: Box::new(self.child.model()),
        }
    }
}

impl View for LogicalAggregate {
    type V = PlanView;

    open spec fn view(&self) -> PlanView {
        self.model()
    }
}

impl Clone for LogicalAggregate {
    fn clone(&self) -> (copy: LogicalAggregate)
        ensures
            copy@ == self@,
    {
        LogicalAggregate {
            agg_calls: clone_agg_calls(&self.agg_calls),
            group_keys: clone_exprs(&self.group_keys),
            child: self.child.clone(),
        }
    }
}

impl LogicalPlanTrait for LogicalAggregate {
    open spec fn plan_view(&self) -> PlanView {
        self.model()
    }

    fn children(&self) -> (children: PlanChildren) {
        let mut children = PlanChildren::new();
        children.push(self.child.clone());
        assert(children@ =~= self.model().children());
        children
    }

    fn clone_with_children(&self, children: Vec<LogicalPlanRef>) -> (plan: LogicalPlanRef) {
        let mut new = self.clone();
        new.child = children[0].clone();
        Rc::new(LogicalPlan::LogicalAggregate(new))
    }
}

/// The logical plan of an ordering.
#[derive(Debug, PartialEq)]
pub struct LogicalOrder {
    pub comparators: Vec<BoundOrderBy>,
    pub child: LogicalPlanRef,
}

impl LogicalOrder {
    pub open spec fn model(&self) -> PlanView
        decreases self,
    {
        PlanView::Order {
            comparators: order_bys_view(self.comparators@),
            child: Box::new(self.child.model()),
        }
    }
}

impl View for LogicalOrder {
    type V = PlanView;

    open spec fn view(&self) -> PlanView {
        self.model()
    }
}

impl Clone for LogicalOrder {
    fn clone(&self) -> (copy: LogicalOrder)
        ensures
            copy@ == self@,
    {
        LogicalOrder { comparators: clone_order_bys(&self.comparators), child: self.child.clone() }
    }
}

impl LogicalPlanTrait for LogicalOrder {
    open spec fn plan_view(&self) -> PlanView {
        self.model()
    }

    fn children(&self) -> (children: PlanChildren) {
        let mut children = PlanChildren::new();
        children.push(self.child.clone());
        assert(children@ =~= self.model().children());
        children
    }

    fn clone_with_children(&self, children: Vec<LogicalPlanRef>) -> (plan: LogicalPlanRef) {
        let mut new = self.clone();
        new.child = children[0].clone();
        Rc::new(LogicalPlan::LogicalOrder(new))
    }
}

/// The logical plan of a limit: skip `offset` rows, then pass `limit` rows.
#[derive(Debug, PartialEq)]
pub struct LogicalLimit {
    pub offset: usize,
    pub limit: usize,
    pub child: LogicalPlanRef,
}

impl LogicalLimit {
    pub open spec fn model(&self) -> PlanView
        decreases self,
    {
        PlanView::Limit {
            offset: self.offset,
            limit: self.limit,
            child: Box::new(self.child.model()),
        }
    }
}

impl View for LogicalLimit {
    type V = PlanView;

    open spec fn view(&self) -> PlanView {
        self.model()
    }
}

impl Clone for LogicalLimit {
    fn clone(&self) -> (copy: LogicalLimit)
        ensures
            copy@ == self@,
    {
        LogicalLimit { offset: self.offset, limit: self.limit, child: self.child.clone() }
    }
}

impl LogicalPlanTrait for LogicalLimit {
    open spec fn plan_view(&self) -> PlanView {
        self.model()
    }

    fn children(&self) -> (children: PlanChildren) {
        let mut children = PlanChildren::new();
        children.push(self.child.clone());
        assert(children@ =~= self.model().children());
        children
    }

    fn clone_with_children(&self, children: Vec<LogicalPlanRef>) -> (plan: LogicalPlanRef) {
        let mut new = self.clone();
        new.child = children[0].clone();
        Rc::new(LogicalPlan::LogicalLimit(new))
    }
}

/// The number of tables that a table reference joins to its first one.
pub open spec fn joined_tables(table_ref: TableRefView) -> nat {
    match table_ref {
        TableRefView::Base { .. } => 0,
        TableRefView::Join { join_tables, .. } => join_tables.len(),
    }
}

/// The plan of a table reference with only the first `n` of its joined tables:
/// each further table becomes the right side of a join whose left side is all
/// that stands before it.
pub open spec fn table_plan_upto(
    table_ref: TableRefView,
    n: nat,
    with_row_handler: bool,
    is_sorted: bool,
) -> PlanView
    decreases table_ref, n,
{
    match table_ref {
        TableRefView::Base { ref_id, column_ids, column_descs, .. } => PlanView::Get {
            table_ref_id: ref_id,
            column_ids,
            column_descs,
            with_row_handler,
            is_sorted,
        },
        TableRefView::Join { relation, join_tables } => {
            if n == 0 {
                table_plan_upto(*relation, joined_tables(*relation), with_row_handler, is_sorted)
            } else if n <= join_tables.len() {
                let joined = join_tables[n - 1];
                PlanView::Join {
                    left_plan: Box::new(
                        table_plan_upto(table_ref, (n - 1) as nat, with_row_handler, is_sorted),
                    ),
                    right_plan: Box::new(
                        table_plan_upto(
                            *joined.table_ref,
                            joined_tables(*joined.table_ref),
                            with_row_handler,
                            is_sorted,
                        ),
                    ),
                    join_op: joined.join_op,
                }
            } else {
                PlanView::Dummy
            }
        },
    }
}

/// The plan of a table reference.
pub open spec fn table_plan(table_ref: TableRefView, with_row_handler: bool, is_sorted: bool)
    -> PlanView {
    table_plan_upto(table_ref, joined_tables(table_ref), with_row_handler, is_sorted)
}

/// The aggregate calls of an expression in the order in which they are taken
/// out of it: depth first, left before right, through operators, casts and
/// null checks. What stands under an alias is not looked at.
pub open spec fn agg_calls_of(expr: ExprView) -> Seq<AggCallView>
    decreases expr,
{
    match expr {
        ExprView::AggCall(call) => seq![call],
        ExprView::BinaryOp { left, right, .. } => agg_calls_of(*left) + agg_calls_of(*right),
        ExprView::UnaryOp { expr, .. } => agg_calls_of(*expr),
        ExprView::TypeCast { expr, .. } => agg_calls_of(*expr),
        ExprView::IsNull { expr } => agg_calls_of(*expr),
        _ => Seq::empty(),
    }
}

/// An expression with each of its aggregate calls replaced by a reference to
/// the position of the call's result: `start` for the first, and one more for
/// each further one in the order of [`agg_calls_of`].
pub open spec fn extracted(expr: ExprView, start: nat) -> ExprView
    decreases expr,
{
    match expr {
        ExprView::AggCall(call) => ExprView::InputRef {
            index: start,
            return_type: call.return_type,
        },
        ExprView::BinaryOp { op, left, right, return_type } => ExprView::BinaryOp {
            op,
            left: Box::new(extracted(*left, start)),
            right: Box::new(extracted(*right, start + agg_calls_of(*left).len())),
            return_type,
        },
        ExprView::UnaryOp { op, expr, return_type } => ExprView::UnaryOp {
            op,
            expr: Box::new(extracted(*expr, start)),
            return_type,
        },
        ExprView::TypeCast { ty, expr } => ExprView::TypeCast {
            ty,
            expr: Box::new(extracted(*expr, start)),
        },
        ExprView::IsNull { expr } => ExprView::IsNull { expr: Box::new(extracted(*expr, start)) },
        _ => expr,
    }
}

/// The aggregate calls of the first `n` expressions of a list, in order.
pub open spec fn agg_calls_upto(exprs: Seq<ExprView>, n: nat) -> Seq<AggCallView>
    decreases n,
{
    if n == 0 {
        Seq::empty()
    } else {
        agg_calls_upto(exprs, (n - 1) as nat) + agg_calls_of(exprs[n - 1])
    }
}

/// A list of expressions with the aggregate calls taken out, the positions
/// running on from one expression to the next.
pub open spec fn extracted_list(exprs: Seq<ExprView>, start: nat) -> Seq<ExprView> {
    Seq::new(
        exprs.len(),
        |i: int| extracted(exprs[i], start + agg_calls_upto(exprs, i as nat).len()),
    )
}

/// Takes the aggregate calls out of expressions and leaves references to
/// their results in their place.
///
/// Over `select sum(b) + a * count(a) from t group by a` the expression
/// becomes `#1 + a * #2`: the aggregation under it yields `a, sum(b),
/// count(a)`, the group keys before the aggregates.
#[derive(Debug, Default)]
pub struct AggExtractor {
    pub agg_calls: Vec<BoundAggCall>,
    pub index: usize,
}

impl AggExtractor {
    /// An extractor for an aggregation with `group_key_count` group keys.
    pub fn new(group_key_count: usize) -> (extractor: AggExtractor)
        ensures
            extractor.agg_calls@.len() == 0,
            extractor.index == group_key_count,
    {
        AggExtractor { agg_calls: Vec::new(), index: group_key_count }
    }

    /// Takes the aggregate calls out of `expr`, appends them to the calls
    /// taken so far, and moves the next position on by their number.
    pub fn visit_expr(&mut self, expr: &mut BoundExpr)
        requires
            old(self).index + agg_calls_of(old(expr)@).len() <= usize::MAX,
        ensures
            final(expr)@ == extracted(old(expr)@, old(self).index as nat),
            agg_calls_view(final(self).agg_calls@) == agg_calls_view(old(self).agg_calls@)
                + agg_calls_of(old(expr)@),
            final(self).index == old(self).index + agg_calls_of(old(expr)@).len(),
        decreases *old(expr),
    {
        match expr {
            BoundExpr::AggCall(agg) => {
                let mut taken = BoundExpr::InputRef(
                    BoundInputRef { index: self.index, return_type: agg.return_type },
                );
                std::mem::swap(expr, &mut taken);
                match taken {
                    BoundExpr::AggCall(agg) => {
                        proof {
                            lemma_agg_call_view(agg);
                        }
                        self.agg_calls.push(agg);
                        assert(agg_calls_view(self.agg_calls@) =~= agg_calls_view(
                            old(self).agg_calls@,
                        ) + agg_calls_of(old(expr)@));
                    },
                    _ => {},
                }
                self.index += 1;
            },
            BoundExpr::BinaryOp(bin_op) => {
                let ghost left = bin_op.left_expr@;
                let ghost right = bin_op.right_expr@;
                self.visit_expr(&mut *bin_op.left_expr);
                self.visit_expr(&mut *bin_op.right_expr);
                assert(agg_calls_view(self.agg_calls@) =~= agg_calls_view(old(self).agg_calls@) + (
                agg_calls_of(left) + agg_calls_of(right)));
            },
            BoundExpr::UnaryOp(unary_op) => self.visit_expr(&mut *unary_op.expr),
            BoundExpr::TypeCast(type_cast) => self.visit_expr(&mut *type_cast.expr),
            BoundExpr::IsNull(is_null) => self.visit_expr(&mut *is_null.expr),
            _ => {
                assert(agg_calls_view(self.agg_calls@) =~= agg_calls_view(old(self).agg_calls@)
                    + agg_calls_of(old(expr)@));
            },
        }
    }
}

/// The calls of a longer run of a list are at least as many.
pub proof fn lemma_agg_calls_upto_grows(exprs: Seq<ExprView>, n: nat, m: nat)
    requires
        n <= m,
    ensures
        agg_calls_upto(exprs, n).len() <= agg_calls_upto(exprs, m).len(),
    decreases m,
{
    if n < m {
        lemma_agg_calls_upto_grows(exprs, n, (m - 1) as nat);
    }
}

/// Whether the walk that takes the aggregate calls out of an expression meets
/// no reference to a position.
pub open spec fn walk_free_of_input_refs(expr: ExprView) -> bool
    decreases expr,
{
    match expr {
        ExprView::InputRef { .. } => false,
        ExprView::BinaryOp { left, right, .. } => walk_free_of_input_refs(*left)
            && walk_free_of_input_refs(*right),
        ExprView::UnaryOp { expr, .. } => walk_free_of_input_refs(*expr),
        ExprView::TypeCast { expr, .. } => walk_free_of_input_refs(*expr),
        ExprView::IsNull { expr } => walk_free_of_input_refs(*expr),
        _ => true,
    }
}

/// Whether every position that the walk meets in an expression is the
/// position of one of `calls` in a row that holds `first` columns before
/// them, and carries the type of that call's result.
pub open spec fn positions_match_calls(expr: ExprView, calls: Seq<AggCallView>, first: nat) -> bool
    decreases expr,
{
    match expr {
        ExprView::InputRef { index, return_type } => {
            &&& first <= index < first + calls.len()
            &&& calls[index - first].return_type == return_type
        },
        ExprView::BinaryOp { left, right, .. } => positions_match_calls(*left, calls, first)
            && positions_match_calls(*right, calls, first),
        ExprView::UnaryOp { expr, .. } => positions_match_calls(*expr, calls, first),
        ExprView::TypeCast { expr, .. } => positions_match_calls(*expr, calls, first),
        ExprView::IsNull { expr } => positions_match_calls(*expr, calls, first),
        _ => true,
    }
}

/// The positions left in an expression are those of its aggregate calls in a
/// call list that holds them in their order, `before` before them and `after`
/// after them, behind `first` columns.
pub proof fn lemma_extracted_matches_calls(
    expr: ExprView,
    before: Seq<AggCallView>,
    after: Seq<AggCallView>,
    first: nat,
)
    requires
        walk_free_of_input_refs(expr),
    ensures
        positions_match_calls(
            extracted(expr, first + before.len()),
            before + agg_calls_of(expr) + after,
            first,
        ),
    decreases expr,
{
    match expr {
        ExprView::BinaryOp { left, right, .. } => {
            let l = agg_calls_of(*left);
            let r = agg_calls_of(*right);
            lemma_extracted_matches_calls(*left, before, r + after, first);
            lemma_extracted_matches_calls(*right, before + l, after, first);
            assert(before + l + (r + after) =~= before + (l + r) + after);
            assert(before + l + r + after =~= before + (l + r) + after);
        },
        ExprView::UnaryOp { expr, .. } => lemma_extracted_matches_calls(*expr, before, after, first),
        ExprView::TypeCast { expr, .. } => lemma_extracted_matches_calls(
            *expr,
            before,
            after,
            first,
        ),
        ExprView::IsNull { expr } => lemma_extracted_matches_calls(*expr, before, after, first),
        _ => {},
    }
}

/// The aggregate calls of the expressions of a list from the `i`-th up to the
/// `n`-th, in order.
pub open spec fn agg_calls_between(exprs: Seq<ExprView>, i: nat, n: nat) -> Seq<AggCallView>
    decreases n,
{
    if n <= i {
        Seq::empty()
    } else {
        agg_calls_between(exprs, i, (n - 1) as nat) + agg_calls_of(exprs[n - 1])
    }
}

/// The calls of a run of a list are those of its start, then those of the
/// rest.
pub proof fn lemma_agg_calls_split(exprs: Seq<ExprView>, i: nat, n: nat)
    requires
        i <= n,
    ensures
        agg_calls_upto(exprs, n) == agg_calls_upto(exprs, i) + agg_calls_between(exprs, i, n),
    decreases n,
{
    if i < n {
        lemma_agg_calls_split(exprs, i, (n - 1) as nat);
        assert(agg_calls_upto(exprs, n) =~= agg_calls_upto(exprs, i) + agg_calls_between(
            exprs,
            i,
            n,
        ));
    } else {
        assert(agg_calls_upto(exprs, n) =~= agg_calls_upto(exprs, i) + agg_calls_between(
            exprs,
            i,
            n,
        ));
    }
}

/// The select list that the planner leaves in a projection fits the
/// aggregation that it puts under it: behind `first` group keys, each
/// position in the list is that of the call that stood there, in a row of
/// the group keys followed by the results of the calls in their order.
pub proof fn lemma_select_list_matches_calls(exprs: Seq<ExprView>, first: nat)
    requires
        forall|i: int| 0 <= i < exprs.len() ==> walk_free_of_input_refs(#[trigger] exprs[i]),
    ensures
        forall|i: int|
            0 <= i < exprs.len() ==> positions_match_calls(
                #[trigger] extracted_list(exprs, first)[i],
                agg_calls_upto(exprs, exprs.len()),
                first,
            ),
{
    assert forall|i: int| 0 <= i < exprs.len() implies positions_match_calls(
        #[trigger] extracted_list(exprs, first)[i],
        agg_calls_upto(exprs, exprs.len()),
        first,
    ) by {
        let before = agg_calls_upto(exprs, i as nat);
        let after = agg_calls_between(exprs, (i + 1) as nat, exprs.len());
        assert(walk_free_of_input_refs(exprs[i]));
        lemma_extracted_matches_calls(exprs[i], before, after, first);
        lemma_agg_calls_split(exprs, (i + 1) as nat, exprs.len());
        assert(agg_calls_upto(exprs, (i + 1) as nat) == before + agg_calls_of(exprs[i]));
    }
}

/// Whether the scan can yield the rows in the order asked for: one table,
/// and one ascending key that is the table's primary key.
pub open spec fn scans_sorted(stmt: SelectView) -> bool {
    &&& stmt.from_table.len() > 0
    &&& stmt.from_table[0] is Base
    &&& stmt.orderby.len() == 1
    &&& !stmt.orderby[0].descending
    &&& stmt.orderby[0].expr matches ExprView::ColumnRef { is_primary_key, .. } && is_primary_key
}

/// The cap on rows where the statement gives none. Half the largest machine
/// word: an offset added to it stays within the word.
pub open spec fn default_limit() -> usize {
    (usize::MAX / 2) as usize
}

/// The count that a `limit` or `offset` gives: `otherwise` where the clause
/// is absent or null, the literal's count where it is one, and an error for
/// what is no literal or no count.
pub open spec fn clause_count(
    clause: Option<ExprView>,
    otherwise: usize,
    not_constant: LogicalPlanErrorView,
) -> Result<usize, LogicalPlanErrorView> {
    match clause {
        None => Ok(otherwise),
        Some(expr) => match expr {
            ExprView::Constant(value) => match value.as_count() {
                Ok(Some(count)) => Ok(count),
                Ok(None) => Ok(otherwise),
                Err(error) => Err(LogicalPlanErrorView::Convert(error)),
            },
            _ => Err(not_constant),
        },
    }
}

/// The source of the rows: the first table of the `from` clause, or a dummy.
pub open spec fn select_source(stmt: SelectView) -> PlanView {
    if stmt.from_table.len() > 0 {
        table_plan(stmt.from_table[0], false, scans_sorted(stmt))
    } else {
        PlanView::Dummy
    }
}

/// The source under the `where` clause.
pub open spec fn select_filtered(stmt: SelectView) -> PlanView {
    match stmt.where_clause {
        Some(expr) => PlanView::Filter { expr, child: Box::new(select_source(stmt)) },
        None => select_source(stmt),
    }
}

/// The aggregate calls of the select list.
pub open spec fn select_agg_calls(stmt: SelectView) -> Seq<AggCallView> {
    agg_calls_upto(stmt.select_list, stmt.select_list.len())
}

/// The filtered rows under the aggregation, where the select list calls for
/// one.
pub open spec fn select_aggregated(stmt: SelectView) -> PlanView {
    if select_agg_calls(stmt).len() > 0 {
        PlanView::Aggregate {
            agg_calls: select_agg_calls(stmt),
            group_keys: stmt.group_by,
            child: Box::new(select_filtered(stmt)),
        }
    } else {
        select_filtered(stmt)
    }
}

/// The projection of the select list, its aggregate calls replaced by
/// references to the aggregation's columns after the group keys.
pub open spec fn select_projected(stmt: SelectView) -> PlanView {
    if stmt.select_list.len() > 0 {
        PlanView::Projection {
            project_expressions: extracted_list(stmt.select_list, stmt.group_by.len()),
            child: Box::new(select_aggregated(stmt)),
        }
    } else {
        select_aggregated(stmt)
    }
}

/// The ordering, unless there is none to do.
pub open spec fn select_ordered(stmt: SelectView) -> PlanView {
    if stmt.orderby.len() > 0 && !scans_sorted(stmt) {
        PlanView::Order {
            comparators: stmt.orderby,
            child: Box::new(select_projected(stmt)),
        }
    } else {
        select_projected(stmt)
    }
}

/// The plan of a `select` statement, or why it has none.
pub open spec fn select_plan(stmt: SelectView) -> Result<PlanView, LogicalPlanErrorView> {
    if stmt.select_distinct {
        Err(LogicalPlanErrorView::UnsupportedDistinct)
    } else {
        match clause_count(stmt.limit, default_limit(), LogicalPlanErrorView::NonConstantLimit) {
            Err(error) => Err(error),
            Ok(limit) => match clause_count(
                stmt.offset,
                0,
                LogicalPlanErrorView::NonConstantOffset,
            ) {
                Err(error) => Err(error),
                Ok(offset) => if stmt.limit is Some || stmt.offset is Some {
                    Ok(PlanView::Limit { offset, limit, child: Box::new(select_ordered(stmt)) })
                } else {
                    Ok(select_ordered(stmt))
                },
            },
        }
    }
}

/// Whether the positions given to the aggregate results fit the machine word.
pub open spec fn select_fits(stmt: SelectView) -> bool {
    stmt.group_by.len() + select_agg_calls(stmt).len() <= usize::MAX
}

/// Whether what was counted is `base` and the number of aggregate calls of an
/// expression together, or nothing where that does not fit the machine word.
pub open spec fn is_count_from(counted: Option<usize>, base: usize, expr: ExprView) -> bool {
    match counted {
        Some(total) => total == base + agg_calls_of(expr).len(),
        None => base + agg_calls_of(expr).len() > usize::MAX,
    }
}

/// Adds to `base` the number of aggregate calls that would be taken out of
/// an expression.
pub fn count_agg_calls(base: usize, expr: &BoundExpr) -> (counted: Option<usize>)
    ensures
        is_count_from(counted, base, expr@),
    decreases expr,
{
    match expr {
        BoundExpr::AggCall(agg) => {
            proof {
                lemma_agg_call_view(*agg);
            }
            base.checked_add(1)
        },
        BoundExpr::BinaryOp(bin_op) => match count_agg_calls(base, &bin_op.left_expr) {
            Some(counted) => count_agg_calls(counted, &bin_op.right_expr),
            None => None,
        },
        BoundExpr::UnaryOp(unary_op) => count_agg_calls(base, &unary_op.expr),
        BoundExpr::TypeCast(type_cast) => count_agg_calls(base, &type_cast.expr),
        BoundExpr::IsNull(is_null) => count_agg_calls(base, &is_null.expr),
        _ => Some(base),
    }
}

/// Reads the count of a `limit` or `offset`.
fn count_of_clause(clause: &Option<BoundExpr>, otherwise: usize, not_constant: LogicalPlanError)
    -> (result: Result<usize, LogicalPlanError>)
    ensures
        match (result, clause_count(clause_view(*clause), otherwise, not_constant@)) {
            (Ok(n), Ok(m)) => n == m,
            (Err(e), Err(f)) => e@ == f,
            _ => false,
        },
{
    match clause {
        None => Ok(otherwise),
        Some(BoundExpr::Constant(value)) => match value.as_usize() {
            Ok(Some(count)) => Ok(count),
            Ok(None) => Ok(otherwise),
            Err(error) => Err(LogicalPlanError::Convert(error)),
        },
        Some(_) => Err(not_constant),
    }
}

impl LogicalPlaner {
    /// Whether the positions that planning a `select` statement gives out
    /// fit the machine word.
    pub fn select_fits(&self, stmt: &BoundSelect) -> (fits: bool)
        ensures
            fits == select_fits(stmt@),
    {
        let ghost exprs = exprs_view(stmt.select_list@);
        let mut total: usize = stmt.group_by.len();
        let mut i: usize = 0;
        while i < stmt.select_list.len()
            invariant
                i <= stmt.select_list.len(),
                exprs == exprs_view(stmt.select_list@),
                total == stmt.group_by.len() + agg_calls_upto(exprs, i as nat).len(),
            decreases stmt.select_list.len() - i,
        {
            match count_agg_calls(total, &stmt.select_list[i]) {
                Some(counted) => {
                    total = counted;
                },
                None => {
                    proof {
                        lemma_agg_calls_upto_grows(exprs, (i + 1) as nat, exprs.len());
                    }
                    return false;
                },
            }
            i += 1;
        }
        true
    }

    /// Plans a `select` statement.
    pub fn plan_select(&self, stmt: Box<BoundSelect>) -> (result: Result<
        LogicalPlanRef,
        LogicalPlanError,
    >)
        requires
            select_fits(stmt@),
        ensures
            planned_view(result) == select_plan(stmt@),
    {
        let ghost given = stmt@;
        if stmt.select_distinct {
            return Err(LogicalPlanError::UnsupportedDistinct);
        }
        let limit = match count_of_clause(
            &stmt.limit,
            usize::MAX / 2,
            LogicalPlanError::NonConstantLimit,
        ) {
            Ok(limit) => limit,
            Err(error) => {
                return Err(error);
            },
        };
        let offset = match count_of_clause(&stmt.offset, 0, LogicalPlanError::NonConstantOffset) {
            Ok(offset) => offset,
            Err(error) => {
                return Err(error);
            },
        };
        let limited = stmt.limit.is_some() || stmt.offset.is_some();

        let mut is_sorted = false;
        let mut plan: LogicalPlanRef = Rc::new(LogicalPlan::LogicalDummy(LogicalDummy));
        if stmt.from_table.len() > 0 {
            // The storage engine yields the rows in the order of the primary key.
            if stmt.orderby.len() == 1 && !stmt.orderby[0].descending {
                if let BoundTableRef::BaseTableRef { .. } = &stmt.from_table[0] {
                    if let BoundExpr::ColumnRef(col_ref) = &stmt.orderby[0].expr {
                        if col_ref.is_primary_key {
                            is_sorted = true;
                        }
                    }
                }
            }
            plan = match self.plan_table_ref(&stmt.from_table[0], false, is_sorted) {
                Ok(plan) => plan,
                Err(error) => {
                    return Err(error);
                },
            };
        }
        assert(is_sorted == scans_sorted(given));
        assert(plan@ == select_source(given));

        let stmt = *stmt;
        let BoundSelect { select_list, where_clause, group_by, orderby, .. } = stmt;
        let mut select_list = select_list;

        if let Some(expr) = where_clause {
            plan = Rc::new(LogicalPlan::LogicalFilter(LogicalFilter { expr, child: plan }));
        }
        assert(plan@ == select_filtered(given));

        let ghost exprs = exprs_view(select_list@);
        let mut agg_extractor = AggExtractor::new(group_by.len());
        let mut i: usize = 0;
        while i < select_list.len()
            invariant
                i <= select_list.len(),
                select_list.len() == exprs.len(),
                group_by.len() + agg_calls_upto(exprs, exprs.len()).len() <= usize::MAX,
                agg_calls_view(agg_extractor.agg_calls@) == agg_calls_upto(exprs, i as nat),
                agg_extractor.index == group_by.len() + agg_calls_upto(exprs, i as nat).len(),
                forall|j: int|
                    0 <= j < i ==> select_list[j]@ == extracted(
                        exprs[j],
                        group_by.len() as nat + agg_calls_upto(exprs, j as nat).len(),
                    ),
                forall|j: int| i <= j < select_list.len() ==> select_list[j]@ == exprs[j],
            decreases select_list.len() - i,
        {
            proof {
                lemma_agg_calls_upto_grows(exprs, (i + 1) as nat, exprs.len());
            }
            agg_extractor.visit_expr(&mut select_list[i]);
            i += 1;
        }
        assert(exprs_view(select_list@) =~= extracted_list(exprs, group_by.len() as nat));
        let AggExtractor { agg_calls, .. } = agg_extractor;
        let selects = select_list.len() > 0;
        let orders = orderby.len() > 0;
        if agg_calls.len() > 0 {
            plan = Rc::new(
                LogicalPlan::LogicalAggregate(
                    LogicalAggregate { agg_calls, group_keys: group_by, child: plan },
                ),
            );
        }
        assert(plan@ == select_aggregated(given));
        if selects {
            plan = Rc::new(
                LogicalPlan::LogicalProjection(
                    LogicalProjection { project_expressions: select_list, child: plan },
                ),
            );
        }
        assert(plan@ == select_projected(given));
        if orders && !is_sorted {
            plan = Rc::new(
                LogicalPlan::LogicalOrder(LogicalOrder { comparators: orderby, child: plan }),
            );
        }
        assert(plan@ == select_ordered(given));
        if limited {
            plan = Rc::new(LogicalPlan::LogicalLimit(LogicalLimit { offset, limit, child: plan }));
        }
        Ok(plan)
    }

    /// Plans a table reference: a scan for one table, and for joined tables
    /// the joins from left to right.
    pub fn plan_table_ref(
        &self,
        table_ref: &BoundTableRef,
        with_row_handler: bool,
        is_sorted: bool,
    ) -> (result: Result<LogicalPlanRef, LogicalPlanError>)
        ensures
            planned_view(result) == Ok::<_, LogicalPlanErrorView>(
                table_plan(table_ref@, with_row_handler, is_sorted),
            ),
        decreases table_ref,
    {
        match table_ref {
            BoundTableRef::BaseTableRef { ref_id, table_name: _, column_ids, column_descs } => Ok(
                Rc::new(
                    LogicalPlan::LogicalGet(
                        LogicalGet {
                            table_ref_id: *ref_id,
                            column_ids: clone_column_ids(column_ids),
                            column_descs: clone_column_descs(column_descs),
                            with_row_handler,
                            is_sorted,
                        },
                    ),
                ),
            ),
            BoundTableRef::JoinTableRef { relation, join_tables } => {
                let mut plan = match self.plan_table_ref(relation, with_row_handler, is_sorted) {
                    Ok(plan) => plan,
                    Err(error) => {
                        return Err(error);
                    },
                };
                let mut i: usize = 0;
                while i < join_tables.len()
                    invariant
                        i <= join_tables.len(),
                        *table_ref == (BoundTableRef::JoinTableRef {
                            relation: *relation,
                            join_tables: *join_tables,
                        }),
                        decreases_to!(table_ref => join_tables),
                        plan@ == table_plan_upto(table_ref@, i as nat, with_row_handler, is_sorted),
                    decreases join_tables.len() - i,
                {
                    let join_table = &join_tables[i];
                    let table_plan = match self.plan_table_ref(
                        &join_table.table_ref,
                        with_row_handler,
                        is_sorted,
                    ) {
                        Ok(plan) => plan,
                        Err(error) => {
                            return Err(error);
                        },
                    };
                    plan = Rc::new(
                        LogicalPlan::LogicalJoin(
                            LogicalJoin {
                                left_plan: plan,
                                right_plan: table_plan,
                                join_op: join_table.join_op.clone(),
                            },
                        ),
                    );
                    i += 1;
                }
                Ok(plan)
            },
        }
    }
}

} // verus!
