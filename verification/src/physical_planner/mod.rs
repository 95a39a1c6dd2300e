//! The physical plan tree, and the planner that lowers a logical plan to it.

use vstd::prelude::*;
use crate::binder::agg_call::clone_agg_calls;
use crate::binder::agg_call::AggCallView;
use crate::binder::expression::clone_exprs;
use crate::binder::expression::clone_rows;
use crate::binder::expression::ExprView;
use crate::binder::statement::clone_order_bys;
use crate::binder::statement::FileFormat;
use crate::binder::statement::JoinOperatorView;
use crate::binder::statement::Object;
use crate::binder::statement::OrderByView;
use crate::catalog::clone_column_catalogs;
use crate::catalog::clone_column_descs;
use crate::catalog::clone_column_ids;
use crate::catalog::ColumnCatalogView;
use crate::catalog::ColumnDescView;
use crate::catalog::ColumnId;
use crate::catalog::DatabaseId;
use crate::catalog::SchemaId;
use crate::catalog::TableRefId;
use crate::logical_planner::LogicalPlan;
use crate::logical_planner::LogicalPlanRef;
use crate::logical_planner::PlanView;
use crate::types::clone_types;
use crate::types::DataType;

pub mod aggregate;
pub mod compiled;
pub mod copy;
pub mod create;
pub mod delete;
pub mod drop;
pub mod dummy;
pub mod explain;
pub mod filter;
pub mod input_ref_resolver;
pub mod insert;
pub mod join;
pub mod limit;
pub mod order;
pub mod projection;
pub mod resolved;
pub mod seq_scan;

pub use aggregate::PhysicalHashAgg;
pub use aggregate::PhysicalSimpleAgg;
pub use copy::PhysicalCopyFromFile;
pub use copy::PhysicalCopyToFile;
pub use create::PhysicalCreateTable;
pub use delete::PhysicalDelete;
pub use drop::PhysicalDrop;
pub use dummy::PhysicalDummy;
pub use explain::PhysicalExplain;
pub use filter::PhysicalFilter;
pub use input_ref_resolver::AggInputRefResolver;
pub use input_ref_resolver::InputRefResolver;
pub use insert::PhysicalInsert;
pub use insert::PhysicalValues;
pub use join::PhysicalJoin;
pub use limit::PhysicalLimit;
pub use order::PhysicalOrder;
pub use projection::PhysicalProjection;
pub use seq_scan::PhysicalSeqScan;

verus! {

/// Why a logical plan could not be lowered.
#[derive(Clone, Copy, Debug, PartialEq, Eq, Structural)]
pub enum PhysicalPlanError {
    /// The logical plan is not one that can be lowered: an expression of it
    /// cannot be resolved against the rows that its node is given.
    InvalidLogicalPlan,
}

/// A physical operator.
#[derive(Debug, PartialEq)]
pub enum PhysicalPlan {
    PhysicalDummy(PhysicalDummy),
    PhysicalSeqScan(PhysicalSeqScan),
    PhysicalInsert(PhysicalInsert),
    PhysicalValues(PhysicalValues),
    PhysicalCreateTable(PhysicalCreateTable),
    PhysicalDrop(PhysicalDrop),
    PhysicalProjection(PhysicalProjection),
    PhysicalFilter(PhysicalFilter),
    PhysicalExplain(PhysicalExplain),
    PhysicalJoin(PhysicalJoin),
    PhysicalSimpleAgg(PhysicalSimpleAgg),
    PhysicalHashAgg(PhysicalHashAgg),
    PhysicalOrder(PhysicalOrder),
    PhysicalLimit(PhysicalLimit),
    PhysicalDelete(PhysicalDelete),
    PhysicalCopyFromFile(PhysicalCopyFromFile),
    PhysicalCopyToFile(PhysicalCopyToFile),
}

/// The mathematical value of a physical plan tree.
#[allow(inconsistent_fields)]
pub enum PhysicalView {
    Dummy,
    SeqScan {
        table_ref_id: TableRefId,
        column_ids: Seq<ColumnId>,
        column_descs: Seq<ColumnDescView>,
        with_row_handler: bool,
        is_sorted: bool,
    },
    Insert { table_ref_id: TableRefId, column_ids: Seq<ColumnId>, child: Box<PhysicalView> },
    Values { column_types: Seq<DataType>, values: Seq<Seq<ExprView>> },
    CreateTable {
        database_id: DatabaseId,
        schema_id: SchemaId,
        table_name: Seq<char>,
        columns: Seq<ColumnCatalogView>,
    },
    Drop { object: Object },
    Projection { project_expressions: Seq<ExprView>, child: Box<PhysicalView> },
    Filter { expr: ExprView, child: Box<PhysicalView> },
    Explain { child: Box<PhysicalView> },
    Join { join_op: JoinOperatorView, left_plan: Box<PhysicalView>, right_plan: Box<PhysicalView> },
    SimpleAgg { agg_calls: Seq<AggCallView>, child: Box<PhysicalView> },
    HashAgg { agg_calls: Seq<AggCallView>, group_keys: Seq<ExprView>, child: Box<PhysicalView> },
    Order { comparators: Seq<OrderByView>, child: Box<PhysicalView> },
    Limit { offset: usize, limit: usize, child: Box<PhysicalView> },
    Delete { table_ref_id: TableRefId, child: Box<PhysicalView> },
    CopyFromFile { path: Seq<char>, format: FileFormat, column_types: Seq<DataType> },
    CopyToFile {
        path: Seq<char>,
        format: FileFormat,
        column_types: Seq<DataType>,
        child: Box<PhysicalView>,
    },
}

impl PhysicalPlan {
    /// The value of a plan tree, node by node.
    pub open spec fn model(&self) -> PhysicalView
        decreases self,
    {
        match self {
            PhysicalPlan::PhysicalDummy(plan) => plan.model(),
            PhysicalPlan::PhysicalSeqScan(plan) => plan.model(),
            PhysicalPlan::PhysicalInsert(plan) => plan.model(),
            PhysicalPlan::PhysicalValues(plan) => plan.model(),
            PhysicalPlan::PhysicalCreateTable(plan) => plan.model(),
            PhysicalPlan::PhysicalDrop(plan) => plan.model(),
            PhysicalPlan::PhysicalProjection(plan) => plan.model(),
            PhysicalPlan::PhysicalFilter(plan) => plan.model(),
            PhysicalPlan::PhysicalExplain(plan) => plan.model(),
            PhysicalPlan::PhysicalJoin(plan) => plan.model(),
            PhysicalPlan::PhysicalSimpleAgg(plan) => plan.model(),
            PhysicalPlan::PhysicalHashAgg(plan) => plan.model(),
            PhysicalPlan::PhysicalOrder(plan) => plan.model(),
            PhysicalPlan::PhysicalLimit(plan) => plan.model(),
            PhysicalPlan::PhysicalDelete(plan) => plan.model(),
            PhysicalPlan::PhysicalCopyFromFile(plan) => plan.model(),
            PhysicalPlan::PhysicalCopyToFile(plan) => plan.model(),
        }
    }
}

impl View for PhysicalPlan {
    type V = PhysicalView;

    open spec fn view(&self) -> PhysicalView {
        self.model()
    }
}

impl PhysicalPlan {
    /// A copy of the tree with the same value.
    pub fn duplicate(&self) -> (copy: PhysicalPlan)
        ensures
            copy@ == self@,
        decreases self,
    {
        match self {
            PhysicalPlan::PhysicalDummy(plan) => PhysicalPlan::PhysicalDummy(*plan),
            PhysicalPlan::PhysicalSeqScan(plan) => PhysicalPlan::PhysicalSeqScan(
                PhysicalSeqScan {
                    table_ref_id: plan.table_ref_id,
                    column_ids: clone_column_ids(&plan.column_ids),
                    column_descs: clone_column_descs(&plan.column_descs),
                    with_row_handler: plan.with_row_handler,
                    is_sorted: plan.is_sorted,
                },
            ),
            PhysicalPlan::PhysicalInsert(plan) => PhysicalPlan::PhysicalInsert(
                PhysicalInsert {
                    table_ref_id: plan.table_ref_id,
                    column_ids: clone_column_ids(&plan.column_ids),
                    child: Box::new(plan.child.duplicate()),
                },
            ),
            PhysicalPlan::PhysicalValues(plan) => PhysicalPlan::PhysicalValues(
                PhysicalValues {
                    column_types: clone_types(&plan.column_types),
                    values: clone_rows(&plan.values),
                },
            ),
            PhysicalPlan::PhysicalCreateTable(plan) => PhysicalPlan::PhysicalCreateTable(
                PhysicalCreateTable {
                    database_id: plan.database_id,
                    schema_id: plan.schema_id,
                    table_name: plan.table_name.clone(),
                    columns: clone_column_catalogs(&plan.columns),
                },
            ),
            PhysicalPlan::PhysicalDrop(plan) => PhysicalPlan::PhysicalDrop(
                PhysicalDrop {
                    object: plan.object,
                },
            ),
            PhysicalPlan::PhysicalProjection(plan) => PhysicalPlan::PhysicalProjection(
                PhysicalProjection {
                    project_expressions: clone_exprs(&plan.project_expressions),
                    child: Box::new(plan.child.duplicate()),
                },
            ),
            PhysicalPlan::PhysicalFilter(plan) => PhysicalPlan::PhysicalFilter(
                PhysicalFilter {
                    expr: plan.expr.clone(),
                    child: Box::new(plan.child.duplicate()),
                },
            ),
            PhysicalPlan::PhysicalExplain(plan) => PhysicalPlan::PhysicalExplain(
                PhysicalExplain {
                    child: Box::new(plan.child.duplicate()),
                },
            ),
            PhysicalPlan::PhysicalJoin(plan) => PhysicalPlan::PhysicalJoin(
                PhysicalJoin {
                    join_op: plan.join_op.clone(),
                    left_plan: Box::new(plan.left_plan.duplicate()),
                    right_plan: Box::new(plan.right_plan.duplicate()),
                },
            ),
            PhysicalPlan::PhysicalSimpleAgg(plan) => PhysicalPlan::PhysicalSimpleAgg(
                PhysicalSimpleAgg {
                    agg_calls: clone_agg_calls(&plan.agg_calls),
                    child: Box::new(plan.child.duplicate()),
                },
            ),
            PhysicalPlan::PhysicalHashAgg(plan) => PhysicalPlan::PhysicalHashAgg(
                PhysicalHashAgg {
                    agg_calls: clone_agg_calls(&plan.agg_calls),
                    group_keys: clone_exprs(&plan.group_keys),
                    child: Box::new(plan.child.duplicate()),
                },
            ),
            PhysicalPlan::PhysicalOrder(plan) => PhysicalPlan::PhysicalOrder(
                PhysicalOrder {
                    comparators: clone_order_bys(&plan.comparators),
                    child: Box::new(plan.child.duplicate()),
                },
            ),
            PhysicalPlan::PhysicalLimit(plan) => PhysicalPlan::PhysicalLimit(
                PhysicalLimit {
                    offset: plan.offset,
                    limit: plan.limit,
                    child: Box::new(plan.child.duplicate()),
                },
            ),
            PhysicalPlan::PhysicalDelete(plan) => PhysicalPlan::PhysicalDelete(
                PhysicalDelete {
                    table_ref_id: plan.table_ref_id,
                    child: Box::new(plan.child.duplicate()),
                },
            ),
            PhysicalPlan::PhysicalCopyFromFile(plan) => PhysicalPlan::PhysicalCopyFromFile(
                PhysicalCopyFromFile {
                    path: plan.path.clone(),
                    format: plan.format,
                    column_types: clone_types(&plan.column_types),
                },
            ),
            PhysicalPlan::PhysicalCopyToFile(plan) => PhysicalPlan::PhysicalCopyToFile(
                PhysicalCopyToFile {
                    path: plan.path.clone(),
                    format: plan.format,
                    column_types: clone_types(&plan.column_types),
                    child: Box::new(plan.child.duplicate()),
                },
            ),
        }
    }
}

impl Clone for PhysicalPlan {
    fn clone(&self) -> (copy: PhysicalPlan)
        ensures
            copy@ == self@,
    {
        self.duplicate()
    }
}

/// The physical plan of a logical plan. Each node becomes its counterpart
/// with the same fields, over the counterparts of its children. An
/// aggregation becomes a simple aggregation where it has no group keys, and
/// a hash aggregation where it has some.
pub open spec fn lowered(plan: PlanView) -> PhysicalView
    decreases plan,
{
    match plan {
        PlanView::Dummy => PhysicalView::Dummy,
        PlanView::Get {
            table_ref_id,
            column_ids,
            column_descs,
            with_row_handler,
            is_sorted,
        } => PhysicalView::SeqScan {
            table_ref_id,
            column_ids,
            column_descs,
            with_row_handler,
            is_sorted,
        },
        PlanView::Insert { table_ref_id, column_ids, child } => PhysicalView::Insert {
            table_ref_id,
            column_ids,
            child: Box::new(lowered(*child)),
        },
        PlanView::Values { column_types, values } => PhysicalView::Values { column_types, values },
        PlanView::CreateTable {
            database_id,
            schema_id,
            table_name,
            columns,
        } => PhysicalView::CreateTable { database_id, schema_id, table_name, columns },
        PlanView::Drop { object } => PhysicalView::Drop { object },
        PlanView::Projection { project_expressions, child } => PhysicalView::Projection {
            project_expressions,
            child: Box::new(lowered(*child)),
        },
        PlanView::Filter { expr, child } => PhysicalView::Filter {
            expr,
            child: Box::new(lowered(*child)),
        },
        PlanView::Explain { child } => PhysicalView::Explain { child: Box::new(lowered(*child)) },
        PlanView::Join { left_plan, right_plan, join_op } => PhysicalView::Join {
            join_op,
            left_plan: Box::new(lowered(*left_plan)),
            right_plan: Box::new(lowered(*right_plan)),
        },
        PlanView::Aggregate { agg_calls, group_keys, child } => if group_keys.len() == 0 {
            PhysicalView::SimpleAgg { agg_calls, child: Box::new(lowered(*child)) }
        } else {
            PhysicalView::HashAgg { agg_calls, group_keys, child: Box::new(lowered(*child)) }
        },
        PlanView::Order { comparators, child } => PhysicalView::Order {
            comparators,
            child: Box::new(lowered(*child)),
        },
        PlanView::Limit { offset, limit, child } => PhysicalView::Limit {
            offset,
            limit,
            child: Box::new(lowered(*child)),
        },
        PlanView::Delete { table_ref_id, child } => PhysicalView::Delete {
            table_ref_id,
            child: Box::new(lowered(*child)),
        },
        PlanView::CopyFromFile { path, format, column_types } => PhysicalView::CopyFromFile {
            path,
            format,
            column_types,
        },
        PlanView::CopyToFile { path, format, column_types, child } => PhysicalView::CopyToFile {
            path,
            format,
            column_types,
            child: Box::new(lowered(*child)),
        },
    }
}

/// The view of the outcome of lowering.
pub open spec fn lowered_view(result: Result<PhysicalPlan, PhysicalPlanError>) -> Result<
    PhysicalView,
    PhysicalPlanError,
> {
    match result {
        Ok(plan) => Ok(plan@),
        Err(error) => Err(error),
    }
}

/// The planner of physical plans.
#[derive(Debug, Default)]
pub struct PhysicalPlaner;

impl PhysicalPlaner {
    /// Lowers a logical plan whose expressions are resolved, node by node.
    pub fn plan_inner(&self, plan: &LogicalPlan) -> (result: Result<
        PhysicalPlan,
        PhysicalPlanError,
    >)
        ensures
            lowered_view(result) == Ok::<_, PhysicalPlanError>(lowered(plan@)),
        decreases plan,
    {
        match plan {
            LogicalPlan::LogicalDummy(plan) => self.plan_dummy(plan),
            LogicalPlan::LogicalCreateTable(plan) => self.plan_create_table(plan),
            LogicalPlan::LogicalDrop(plan) => self.plan_drop(plan),
            LogicalPlan::LogicalInsert(plan) => self.plan_insert(plan),
            LogicalPlan::LogicalValues(plan) => self.plan_values(plan),
            LogicalPlan::LogicalJoin(plan) => self.plan_join(plan),
            LogicalPlan::LogicalGet(plan) => self.plan_get(plan),
            LogicalPlan::LogicalProjection(plan) => self.plan_projection(plan),
            LogicalPlan::LogicalFilter(plan) => self.plan_filter(plan),
            LogicalPlan::LogicalOrder(plan) => self.plan_order(plan),
            LogicalPlan::LogicalLimit(plan) => self.plan_limit(plan),
            LogicalPlan::LogicalExplain(plan) => self.plan_explain(plan),
            LogicalPlan::LogicalAggregate(plan) => self.plan_aggregate(plan),
            LogicalPlan::LogicalDelete(plan) => self.plan_delete(plan),
            LogicalPlan::LogicalCopyFromFile(plan) => self.plan_copy_from_file(plan),
            LogicalPlan::LogicalCopyToFile(plan) => self.plan_copy_to_file(plan),
        }
    }

    /// Resolves the column references of a logical plan and lowers it, where
    /// the plan can be resolved. A plan that cannot is an invalid logical
    /// plan.
    pub fn try_plan(&self, plan: LogicalPlanRef) -> (result: Result<
        PhysicalPlan,
        PhysicalPlanError,
    >)
        ensures
            lowered_view(result) == if input_ref_resolver::resolvable(plan@, Seq::empty()) {
                Ok::<_, PhysicalPlanError>(
                    lowered(input_ref_resolver::resolved_plan(plan@, Seq::empty())),
                )
            } else {
                Err(PhysicalPlanError::InvalidLogicalPlan)
            },
    {
        let resolver = InputRefResolver::default();
        if resolver.can_resolve(&plan) {
            self.plan(plan)
        } else {
            Err(PhysicalPlanError::InvalidLogicalPlan)
        }
    }

    /// Resolves the column references of a logical plan, then lowers it.
    pub fn plan(&self, plan: LogicalPlanRef) -> (result: Result<PhysicalPlan, PhysicalPlanError>)
        requires
            input_ref_resolver::resolvable(plan@, Seq::empty()),
        ensures
            lowered_view(result) == Ok::<_, PhysicalPlanError>(
                lowered(input_ref_resolver::resolved_plan(plan@, Seq::empty())),
            ),
            result is Ok && compiled::physical_free_of_column_refs(result->Ok_0@),
            resolved::aggregates_in_place(plan@) == compiled::physical_free_of_bare_agg_calls(
                result->Ok_0@,
            ),
    {
        proof {
            compiled::lemma_physical_plan_holds_positions(plan@, Seq::empty());
        }
        let mut resolver = InputRefResolver::default();
        let plan = resolver.rewrite_plan(plan);
        self.plan_inner(&plan)
    }
}

} // verus!
