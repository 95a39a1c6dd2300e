//! `insert` and `values`.

use vstd::prelude::*;
use crate::binder::expression::BoundExpr;
use crate::binder::expression::clone_rows;
use crate::binder::expression::rows_view;
use crate::catalog::clone_column_ids;
use crate::catalog::ColumnId;
use crate::catalog::TableRefId;
use crate::logical_planner::LogicalInsert;
use crate::logical_planner::LogicalValues;
use crate::physical_planner::lowered;
use crate::physical_planner::lowered_view;
use crate::physical_planner::PhysicalPlan;
use crate::physical_planner::PhysicalPlaner;
use crate::physical_planner::PhysicalPlanError;
use crate::physical_planner::PhysicalView;
use crate::types::clone_types;
use crate::types::DataType;

verus! {

/// The physical plan of `insert`.
#[derive(Debug, PartialEq)]
pub struct PhysicalInsert {
    pub table_ref_id: TableRefId,
    pub column_ids: Vec<ColumnId>,
    pub child: Box<PhysicalPlan>,
}

impl PhysicalInsert {
    pub open spec fn model(&self) -> PhysicalView
        decreases self,
    {
        PhysicalView::Insert {
            table_ref_id: self.table_ref_id,
            column_ids: self.column_ids@,
            child: Box::new(self.child.model()),
        }
    }
}

impl View for PhysicalInsert {
    type V = PhysicalView;

    open spec fn view(&self) -> PhysicalView {
        self.model()
    }
}

impl Clone for PhysicalInsert {
    fn clone(&self) -> (copy: PhysicalInsert)
        ensures
            copy@ == self@,
    {
        PhysicalInsert {
            table_ref_id: self.table_ref_id,
            column_ids: clone_column_ids(&self.column_ids),
            child: Box::new(self.child.duplicate()),
        }
    }
}

impl PhysicalPlaner {
    /// Lowers an insertion.
    pub fn plan_insert(&self, plan: &LogicalInsert) -> (result: Result<PhysicalPlan, PhysicalPlanError>)
        ensures
            lowered_view(result) == Ok::<_, PhysicalPlanError>(lowered(plan@)),
        decreases plan,
    {
        let child = match self.plan_inner(&plan.child) {
            Ok(child) => child,
            Err(error) => {
                return Err(error);
            },
        };
        Ok(
            PhysicalPlan::PhysicalInsert(
                PhysicalInsert {
                    table_ref_id: plan.table_ref_id,
                    column_ids: clone_column_ids(&plan.column_ids),
                    child: Box::new(child),
                },
            ),
        )
    }
}

/// The physical plan of `values`.
#[derive(Debug, PartialEq)]
pub struct PhysicalValues {
    pub column_types: Vec<DataType>,
    pub values: Vec<Vec<BoundExpr>>,
}

impl PhysicalValues {
    pub open spec fn model(&self) -> PhysicalView
    {
        PhysicalView::Values {
            column_types: self.column_types@,
            values: rows_view(self.values@),
        }
    }
}

impl View for PhysicalValues {
    type V = PhysicalView;

    open spec fn view(&self) -> PhysicalView {
        self.model()
    }
}

impl Clone for PhysicalValues {
    fn clone(&self) -> (copy: PhysicalValues)
        ensures
            copy@ == self@,
    {
        PhysicalValues {
            column_types: clone_types(&self.column_types),
            values: clone_rows(&self.values),
        }
    }
}

impl PhysicalPlaner {
    /// Lowers rows of values.
    pub fn plan_values(&self, plan: &LogicalValues) -> (result: Result<PhysicalPlan, PhysicalPlanError>)
        ensures
            lowered_view(result) == Ok::<_, PhysicalPlanError>(lowered(plan@)),
    {
        Ok(
            PhysicalPlan::PhysicalValues(
                PhysicalValues {
                    column_types: clone_types(&plan.column_types),
                    values: clone_rows(&plan.values),
                },
            ),
        )
    }
}

} // verus!
