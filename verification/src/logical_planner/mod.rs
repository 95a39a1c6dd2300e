//! The logical plan tree, and the planner that builds it from a bound statement.

use std::rc::Rc;
use vstd::prelude::*;
use crate::binder::agg_call::AggCallView;
use crate::binder::expression::ExprView;
use crate::binder::statement::BoundStatement;
use crate::binder::statement::StatementView;
use crate::binder::statement::FileFormat;
use crate::binder::statement::JoinOperatorView;
use crate::binder::statement::Object;
use crate::binder::statement::OrderByView;
use crate::catalog::ColumnCatalogView;
use crate::catalog::ColumnDescView;
use crate::catalog::ColumnId;
use crate::catalog::DatabaseId;
use crate::catalog::SchemaId;
use crate::catalog::TableRefId;
use crate::types::ConvertError;
use crate::types::ConvertErrorView;
use crate::types::DataType;

pub mod copy;
pub mod create;
pub mod delete;
pub mod drop;
pub mod explain;
pub mod insert;
pub mod select;

pub use copy::LogicalCopyFromFile;
pub use copy::LogicalCopyToFile;
pub use create::LogicalCreateTable;
pub use delete::LogicalDelete;
pub use drop::LogicalDrop;
pub use explain::LogicalExplain;
pub use insert::LogicalInsert;
pub use insert::LogicalValues;
pub use select::AggExtractor;
pub use select::LogicalAggregate;
pub use select::LogicalDummy;
pub use select::LogicalFilter;
pub use select::LogicalGet;
pub use select::LogicalJoin;
pub use select::LogicalLimit;
pub use select::LogicalOrder;
pub use select::LogicalProjection;

verus! {

/// A shared node of a logical plan tree.
pub type LogicalPlanRef = Rc<LogicalPlan>;

/// A logical operator. Each kind has a fixed number of children: none, one or
/// two.
#[derive(Debug, PartialEq)]
pub enum LogicalPlan {
    LogicalDummy(LogicalDummy),
    LogicalGet(LogicalGet),
    LogicalInsert(LogicalInsert),
    LogicalValues(LogicalValues),
    LogicalCreateTable(LogicalCreateTable),
    LogicalDrop(LogicalDrop),
    LogicalProjection(LogicalProjection),
    LogicalFilter(LogicalFilter),
    LogicalExplain(LogicalExplain),
    LogicalJoin(LogicalJoin),
    LogicalAggregate(LogicalAggregate),
    LogicalOrder(LogicalOrder),
    LogicalLimit(LogicalLimit),
    LogicalDelete(LogicalDelete),
    LogicalCopyFromFile(LogicalCopyFromFile),
    LogicalCopyToFile(LogicalCopyToFile),
}

/// The mathematical value of a logical plan tree.
#[allow(inconsistent_fields)]
pub enum PlanView {
    Dummy,
    Get {
        table_ref_id: TableRefId,
        column_ids: Seq<ColumnId>,
        column_descs: Seq<ColumnDescView>,
        with_row_handler: bool,
        is_sorted: bool,
    },
    Insert { table_ref_id: TableRefId, column_ids: Seq<ColumnId>, child: Box<PlanView> },
    Values { column_types: Seq<DataType>, values: Seq<Seq<ExprView>> },
    CreateTable {
        database_id: DatabaseId,
        schema_id: SchemaId,
        table_name: Seq<char>,
        columns: Seq<ColumnCatalogView>,
    },
    Drop { object: Object },
    Projection { project_expressions: Seq<ExprView>, child: Box<PlanView> },
    Filter { expr: ExprView, child: Box<PlanView> },
    Explain { child: Box<PlanView> },
    Join { left_plan: Box<PlanView>, right_plan: Box<PlanView>, join_op: JoinOperatorView },
    Aggregate { agg_calls: Seq<AggCallView>, group_keys: Seq<ExprView>, child: Box<PlanView> },
    Order { comparators: Seq<OrderByView>, child: Box<PlanView> },
    Limit { offset: usize, limit: usize, child: Box<PlanView> },
    Delete { table_ref_id: TableRefId, child: Box<PlanView> },
    CopyFromFile { path: Seq<char>, format: FileFormat, column_types: Seq<DataType> },
    CopyToFile {
        path: Seq<char>,
        format: FileFormat,
        column_types: Seq<DataType>,
        child: Box<PlanView>,
    },
}

impl LogicalPlan {
    /// The value of a plan tree, node by node.
    pub open spec fn model(&self) -> PlanView
        decreases self,
    {
        match self {
            LogicalPlan::LogicalDummy(plan) => plan.model(),
            LogicalPlan::LogicalGet(plan) => plan.model(),
            LogicalPlan::LogicalInsert(plan) => plan.model(),
            LogicalPlan::LogicalValues(plan) => plan.model(),
            LogicalPlan::LogicalCreateTable(plan) => plan.model(),
            LogicalPlan::LogicalDrop(plan) => plan.model(),
            LogicalPlan::LogicalProjection(plan) => plan.model(),
            LogicalPlan::LogicalFilter(plan) => plan.model(),
            LogicalPlan::LogicalExplain(plan) => plan.model(),
            LogicalPlan::LogicalJoin(plan) => plan.model(),
            LogicalPlan::LogicalAggregate(plan) => plan.model(),
            LogicalPlan::LogicalOrder(plan) => plan.model(),
            LogicalPlan::LogicalLimit(plan) => plan.model(),
            LogicalPlan::LogicalDelete(plan) => plan.model(),
            LogicalPlan::LogicalCopyFromFile(plan) => plan.model(),
            LogicalPlan::LogicalCopyToFile(plan) => plan.model(),
        }
    }
}

impl View for LogicalPlan {
    type V = PlanView;

    open spec fn view(&self) -> PlanView {
        self.model()
    }
}

impl Clone for LogicalPlan {
    /// A copy of the node, over the same shared children.
    fn clone(&self) -> (copy: LogicalPlan)
        ensures
            copy@ == self@,
    {
        match self {
            LogicalPlan::LogicalDummy(plan) => LogicalPlan::LogicalDummy(*plan),
            LogicalPlan::LogicalGet(plan) => LogicalPlan::LogicalGet(plan.clone()),
            LogicalPlan::LogicalInsert(plan) => LogicalPlan::LogicalInsert(plan.clone()),
            LogicalPlan::LogicalValues(plan) => LogicalPlan::LogicalValues(plan.clone()),
            LogicalPlan::LogicalCreateTable(plan) => LogicalPlan::LogicalCreateTable(plan.clone()),
            LogicalPlan::LogicalDrop(plan) => LogicalPlan::LogicalDrop(plan.clone()),
            LogicalPlan::LogicalProjection(plan) => LogicalPlan::LogicalProjection(plan.clone()),
            LogicalPlan::LogicalFilter(plan) => LogicalPlan::LogicalFilter(plan.clone()),
            LogicalPlan::LogicalExplain(plan) => LogicalPlan::LogicalExplain(plan.clone()),
            LogicalPlan::LogicalJoin(plan) => LogicalPlan::LogicalJoin(plan.clone()),
            LogicalPlan::LogicalAggregate(plan) => LogicalPlan::LogicalAggregate(plan.clone()),
            LogicalPlan::LogicalOrder(plan) => LogicalPlan::LogicalOrder(plan.clone()),
            LogicalPlan::LogicalLimit(plan) => LogicalPlan::LogicalLimit(plan.clone()),
            LogicalPlan::LogicalDelete(plan) => LogicalPlan::LogicalDelete(plan.clone()),
            LogicalPlan::LogicalCopyFromFile(plan) => LogicalPlan::LogicalCopyFromFile(
                plan.clone(),
            ),
            LogicalPlan::LogicalCopyToFile(plan) => LogicalPlan::LogicalCopyToFile(plan.clone()),
        }
    }
}

impl PlanView {
    /// The children of a node, in their fixed order.
    pub open spec fn children(self) -> Seq<PlanView> {
        match self {
            PlanView::Insert { child, .. } => seq![*child],
            PlanView::Projection { child, .. } => seq![*child],
            PlanView::Filter { child, .. } => seq![*child],
            PlanView::Explain { child } => seq![*child],
            PlanView::Join { left_plan, right_plan, .. } => seq![*left_plan, *right_plan],
            PlanView::Aggregate { child, .. } => seq![*child],
            PlanView::Order { child, .. } => seq![*child],
            PlanView::Limit { child, .. } => seq![*child],
            PlanView::Delete { child, .. } => seq![*child],
            PlanView::CopyToFile { child, .. } => seq![*child],
            _ => Seq::empty(),
        }
    }

    /// The same node over other children. The fields that are no children
    /// stay; so does the node where the number of children is not its own.
    pub open spec fn with_children(self, children: Seq<PlanView>) -> PlanView {
        if children.len() != self.children().len() {
            self
        } else {
            match self {
                PlanView::Insert { table_ref_id, column_ids, .. } => PlanView::Insert {
                    table_ref_id,
                    column_ids,
                    child: Box::new(children[0]),
                },
                PlanView::Projection { project_expressions, .. } => PlanView::Projection {
                    project_expressions,
                    child: Box::new(children[0]),
                },
                PlanView::Filter { expr, .. } => PlanView::Filter {
                    expr,
                    child: Box::new(children[0]),
                },
                PlanView::Explain { .. } => PlanView::Explain { child: Box::new(children[0]) },
                PlanView::Join { join_op, .. } => PlanView::Join {
                    left_plan: Box::new(children[0]),
                    right_plan: Box::new(children[1]),
                    join_op,
                },
                PlanView::Aggregate { agg_calls, group_keys, .. } => PlanView::Aggregate {
                    agg_calls,
                    group_keys,
                    child: Box::new(children[0]),
                },
                PlanView::Order { comparators, .. } => PlanView::Order {
                    comparators,
                    child: Box::new(children[0]),
                },
                PlanView::Limit { offset, limit, .. } => PlanView::Limit {
                    offset,
                    limit,
                    child: Box::new(children[0]),
                },
                PlanView::Delete { table_ref_id, .. } => PlanView::Delete {
                    table_ref_id,
                    child: Box::new(children[0]),
                },
                PlanView::CopyToFile { path, format, column_types, .. } => PlanView::CopyToFile {
                    path,
                    format,
                    column_types,
                    child: Box::new(children[0]),
                },
                _ => self,
            }
        }
    }
}

/// The views of a sequence of plans, one for one.
pub open spec fn plans_view(plans: Seq<LogicalPlanRef>) -> Seq<PlanView> {
    plans.map_values(|p: LogicalPlanRef| p@)
}

/// One plan as a list of children.
pub fn only_child(child: LogicalPlanRef) -> (children: Vec<LogicalPlanRef>)
    ensures
        children@ == seq![child],
        plans_view(children@) == seq![child@],
{
    let mut children: Vec<LogicalPlanRef> = Vec::new();
    children.push(child);
    assert(plans_view(children@) =~= seq![child@]);
    children
}

/// The children of a node, in order. Up to two are held without allocation.
#[verifier::external_body]
pub struct PlanChildren {
    inner: smallvec::SmallVec<[LogicalPlanRef; 2]>,
}

/// The plans that a list of children holds, in order.
pub uninterp spec fn child_plans(children: PlanChildren) -> Seq<LogicalPlanRef>;

impl View for PlanChildren {
    type V = Seq<PlanView>;

    open spec fn view(&self) -> Seq<PlanView> {
        plans_view(child_plans(*self))
    }
}

/// `SmallVec::new` of the crate smallvec. Trusted: the new list holds nothing.
#[verifier::external_body]
fn smallvec_new() -> (children: PlanChildren)
    ensures
        child_plans(children) == Seq::<LogicalPlanRef>::empty(),
{
    PlanChildren { inner: smallvec::SmallVec::new() }
}

/// `SmallVec::push` of the crate smallvec. Trusted: the list holds what it
/// held, and after it the new plan.
#[verifier::external_body]
fn smallvec_push(children: &mut PlanChildren, child: LogicalPlanRef)
    requires
        child_plans(*old(children)).len() < usize::MAX,
    ensures
        child_plans(*final(children)) == child_plans(*old(children)).push(child),
{
    children.inner.push(child)
}

/// `SmallVec::len` of the crate smallvec. Trusted: the result is the number
/// of plans that the list holds.
#[verifier::external_body]
fn smallvec_len(children: &PlanChildren) -> (len: usize)
    ensures
        len == child_plans(*children).len(),
{
    children.inner.len()
}

/// The indexing of a `SmallVec` of the crate smallvec, which goes through its
/// slice. Trusted: the result is the plan at that position.
#[verifier::external_body]
fn smallvec_index(children: &PlanChildren, i: usize) -> (child: &LogicalPlanRef)
    requires
        i < child_plans(*children).len(),
    ensures
        *child == child_plans(*children)[i as int],
{
    &children.inner[i]
}

impl PlanChildren {
    /// No children.
    pub fn new() -> (children: PlanChildren)
        ensures
            children@ == Seq::<PlanView>::empty(),
            child_plans(children).len() == 0,
    {
        let children = smallvec_new();
        assert(children@ =~= Seq::<PlanView>::empty());
        children
    }

    /// Adds a child after the others.
    pub fn push(&mut self, child: LogicalPlanRef)
        requires
            child_plans(*old(self)).len() < usize::MAX,
        ensures
            final(self)@ == old(self)@.push(child@),
            child_plans(*final(self)) == child_plans(*old(self)).push(child),
    {
        smallvec_push(self, child);
        assert(self@ =~= old(self)@.push(child@));
    }

    /// The number of children.
    pub fn len(&self) -> (len: usize)
        ensures
            len == self@.len(),
    {
        smallvec_len(self)
    }

    /// The child at position `i`, shared.
    pub fn get(&self, i: usize) -> (child: LogicalPlanRef)
        requires
            i < self@.len(),
        ensures
            child@ == self@[i as int],
            child == child_plans(*self)[i as int],
    {
        smallvec_index(self, i).clone()
    }

    /// The children as a vector, each shared.
    pub fn to_vec(&self) -> (children: Vec<LogicalPlanRef>)
        ensures
            plans_view(children@) == self@,
            children@ == child_plans(*self),
    {
        let mut children: Vec<LogicalPlanRef> = Vec::new();
        let mut i: usize = 0;
        while i < self.len()
            invariant
                i <= self@.len(),
                children@ == child_plans(*self).take(i as int),
            decreases self@.len() - i,
        {
            children.push(self.get(i));
            assert(children@ =~= child_plans(*self).take(i + 1));
            i += 1;
        }
        assert(children@ =~= child_plans(*self));
        children
    }
}

/// What every node of a logical plan offers: its children in their fixed
/// order, and a copy of itself over other children.
pub trait LogicalPlanTrait {
    /// The value of the node as a plan.
    spec fn plan_view(&self) -> PlanView;

    /// The children of the node, shared.
    fn children(&self) -> (children: PlanChildren)
        ensures
            children@ == self.plan_view().children(),
    ;

    /// A node with the same fields over `children`, which are as many as the
    /// node has.
    fn clone_with_children(&self, children: Vec<LogicalPlanRef>) -> (plan: LogicalPlanRef)
        requires
            children.len() == self.plan_view().children().len(),
        ensures
            plan@ == self.plan_view().with_children(plans_view(children@)),
    ;
}

impl LogicalPlanTrait for LogicalPlan {
    open spec fn plan_view(&self) -> PlanView {
        self.model()
    }

    fn children(&self) -> (children: PlanChildren) {
        match self {
            LogicalPlan::LogicalDummy(plan) => plan.children(),
            LogicalPlan::LogicalGet(plan) => plan.children(),
            LogicalPlan::LogicalInsert(plan) => plan.children(),
            LogicalPlan::LogicalValues(plan) => plan.children(),
            LogicalPlan::LogicalCreateTable(plan) => plan.children(),
            LogicalPlan::LogicalDrop(plan) => plan.children(),
            LogicalPlan::LogicalProjection(plan) => plan.children(),
            LogicalPlan::LogicalFilter(plan) => plan.children(),
            LogicalPlan::LogicalExplain(plan) => plan.children(),
            LogicalPlan::LogicalJoin(plan) => plan.children(),
            LogicalPlan::LogicalAggregate(plan) => plan.children(),
            LogicalPlan::LogicalOrder(plan) => plan.children(),
            LogicalPlan::LogicalLimit(plan) => plan.children(),
            LogicalPlan::LogicalDelete(plan) => plan.children(),
            LogicalPlan::LogicalCopyFromFile(plan) => plan.children(),
            LogicalPlan::LogicalCopyToFile(plan) => plan.children(),
        }
    }

    fn clone_with_children(&self, children: Vec<LogicalPlanRef>) -> (plan: LogicalPlanRef) {
        match self {
            LogicalPlan::LogicalDummy(plan) => plan.clone_with_children(children),
            LogicalPlan::LogicalGet(plan) => plan.clone_with_children(children),
            LogicalPlan::LogicalInsert(plan) => plan.clone_with_children(children),
            LogicalPlan::LogicalValues(plan) => plan.clone_with_children(children),
            LogicalPlan::LogicalCreateTable(plan) => plan.clone_with_children(children),
            LogicalPlan::LogicalDrop(plan) => plan.clone_with_children(children),
            LogicalPlan::LogicalProjection(plan) => plan.clone_with_children(children),
            LogicalPlan::LogicalFilter(plan) => plan.clone_with_children(children),
            LogicalPlan::LogicalExplain(plan) => plan.clone_with_children(children),
            LogicalPlan::LogicalJoin(plan) => plan.clone_with_children(children),
            LogicalPlan::LogicalAggregate(plan) => plan.clone_with_children(children),
            LogicalPlan::LogicalOrder(plan) => plan.clone_with_children(children),
            LogicalPlan::LogicalLimit(plan) => plan.clone_with_children(children),
            LogicalPlan::LogicalDelete(plan) => plan.clone_with_children(children),
            LogicalPlan::LogicalCopyFromFile(plan) => plan.clone_with_children(children),
            LogicalPlan::LogicalCopyToFile(plan) => plan.clone_with_children(children),
        }
    }
}

/// A node has no children, one child or two.
pub proof fn lemma_arity(plan: PlanView)
    ensures
        plan.children().len() <= 2,
{
}

/// A node over its own children is the node itself.
pub proof fn lemma_with_own_children(plan: PlanView)
    ensures
        plan.with_children(plan.children()) == plan,
{
}

/// A node over other children, as many as its own, has those children, in
/// their order, and is of the same kind.
pub proof fn lemma_children_of_with_children(plan: PlanView, children: Seq<PlanView>)
    requires
        children.len() == plan.children().len(),
    ensures
        plan.with_children(children).children() == children,
        plan.with_children(children).with_children(plan.children()) == plan,
{
    assert(plan.with_children(children).children() =~= children);
}

/// Why a statement could not be planned.
#[derive(Debug, PartialEq)]
pub enum LogicalPlanError {
    /// A literal could not be read as the clause needs it.
    Convert(ConvertError),
    /// `select distinct` is not planned.
    UnsupportedDistinct,
    /// The `limit` is no literal.
    NonConstantLimit,
    /// The `offset` is no literal.
    NonConstantOffset,
    /// A `delete` without a predicate would empty the table.
    DeleteWithoutPredicate,
    /// A `delete` names something other than one table.
    UnsupportedDeleteTarget,
    /// A `copy` names something other than a file.
    UnsupportedCopyTarget,
}

/// The mathematical value of a [`LogicalPlanError`].
pub enum LogicalPlanErrorView {
    Convert(ConvertErrorView),
    UnsupportedDistinct,
    NonConstantLimit,
    NonConstantOffset,
    DeleteWithoutPredicate,
    UnsupportedDeleteTarget,
    UnsupportedCopyTarget,
}

impl View for LogicalPlanError {
    type V = LogicalPlanErrorView;

    open spec fn view(&self) -> LogicalPlanErrorView {
        match self {
            LogicalPlanError::Convert(e) => LogicalPlanErrorView::Convert(e@),
            LogicalPlanError::UnsupportedDistinct => LogicalPlanErrorView::UnsupportedDistinct,
            LogicalPlanError::NonConstantLimit => LogicalPlanErrorView::NonConstantLimit,
            LogicalPlanError::NonConstantOffset => LogicalPlanErrorView::NonConstantOffset,
            LogicalPlanError::DeleteWithoutPredicate => LogicalPlanErrorView::DeleteWithoutPredicate,
            LogicalPlanError::UnsupportedDeleteTarget => LogicalPlanErrorView::UnsupportedDeleteTarget,
            LogicalPlanError::UnsupportedCopyTarget => LogicalPlanErrorView::UnsupportedCopyTarget,
        }
    }
}

/// The view of the outcome of planning.
pub open spec fn planned_view(result: Result<LogicalPlanRef, LogicalPlanError>) -> Result<
    PlanView,
    LogicalPlanErrorView,
> {
    match result {
        Ok(plan) => Ok(plan@),
        Err(error) => Err(error@),
    }
}

/// The plan of a statement, or why it has none.
pub open spec fn statement_plan(stmt: StatementView) -> Result<PlanView, LogicalPlanErrorView>
    decreases stmt,
{
    match stmt {
        StatementView::CreateTable(stmt) => Ok(create::create_table_plan(stmt)),
        StatementView::Drop(stmt) => Ok(drop::drop_plan(stmt)),
        StatementView::Insert(stmt) => Ok(insert::insert_plan(stmt)),
        StatementView::Copy(stmt) => copy::copy_plan(stmt),
        StatementView::Select(stmt) => select::select_plan(stmt),
        StatementView::Explain(stmt) => match statement_plan(*stmt) {
            Ok(child) => Ok(PlanView::Explain { child: Box::new(child) }),
            Err(error) => Err(error),
        },
        StatementView::Delete(stmt) => delete::delete_plan(stmt),
    }
}

/// Whether the positions that planning a statement gives out fit the machine
/// word.
pub open spec fn statement_fits(stmt: StatementView) -> bool
    decreases stmt,
{
    match stmt {
        StatementView::Select(stmt) => select::select_fits(stmt),
        StatementView::Explain(stmt) => statement_fits(*stmt),
        _ => true,
    }
}

/// The planner of statements.
#[derive(Debug, Default)]
pub struct LogicalPlaner;

impl LogicalPlaner {
    /// Whether the positions that planning a statement gives out fit the
    /// machine word.
    pub fn fits(&self, stmt: &BoundStatement) -> (fits: bool)
        ensures
            fits == statement_fits(stmt@),
        decreases stmt,
    {
        match stmt {
            BoundStatement::Select(stmt) => self.select_fits(stmt),
            BoundStatement::Explain(stmt) => self.fits(stmt),
            _ => true,
        }
    }

    /// Builds the logical plan of a bound statement.
    pub fn plan(&self, stmt: BoundStatement) -> (result: Result<LogicalPlanRef, LogicalPlanError>)
        requires
            statement_fits(stmt@),
        ensures
            planned_view(result) == statement_plan(stmt@),
        decreases stmt, 0nat,
    {
        match stmt {
            BoundStatement::CreateTable(stmt) => self.plan_create_table(stmt),
            BoundStatement::Drop(stmt) => self.plan_drop(stmt),
            BoundStatement::Insert(stmt) => self.plan_insert(stmt),
            BoundStatement::Copy(stmt) => self.plan_copy(stmt),
            BoundStatement::Select(stmt) => self.plan_select(stmt),
            BoundStatement::Explain(stmt) => self.plan_explain(*stmt),
            BoundStatement::Delete(stmt) => self.plan_delete(*stmt),
        }
    }
}

} // verus!
