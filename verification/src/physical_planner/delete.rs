//! `delete`.

use vstd::prelude::*;
use crate::catalog::TableRefId;
use crate::logical_planner::LogicalDelete;
use crate::physical_planner::lowered;
use crate::physical_planner::lowered_view;
use crate::physical_planner::PhysicalPlan;
use crate::physical_planner::PhysicalPlaner;
use crate::physical_planner::PhysicalPlanError;
use crate::physical_planner::PhysicalView;

verus! {

/// The physical plan of `delete`.
#[derive(Debug, PartialEq)]
pub struct PhysicalDelete {
    pub table_ref_id: TableRefId,
    pub child: Box<PhysicalPlan>,
}

impl PhysicalDelete {
    pub open spec fn model(&self) -> PhysicalView
        decreases self,
    {
        PhysicalView::Delete {
            table_ref_id: self.table_ref_id,
            child: Box::new(self.child.model()),
        }
    }
}

impl View for PhysicalDelete {
    type V = PhysicalView;

    open spec fn view(&self) -> PhysicalView {
        self.model()
    }
}

impl Clone for PhysicalDelete {
    fn clone(&self) -> (copy: PhysicalDelete)
        ensures
            copy@ == self@,
    {
        PhysicalDelete {
            table_ref_id: self.table_ref_id,
            child: Box::new(self.child.duplicate()),
        }
    }
}

impl PhysicalPlaner {
    /// Lowers a deletion.
    pub fn plan_delete(&self, plan: &LogicalDelete) -> (result: Result<PhysicalPlan, PhysicalPlanError>)
        ensures
            lowered_view(result) == Ok::<_, PhysicalPlanError>(lowered(plan@)),
        decreases plan,
    {
        let child = match self.plan_inner(&plan.child) {
            Ok(child) => child,
            Err(error) => {
                return Err(error);
            },
        };
        Ok(
            PhysicalPlan::PhysicalDelete(
                PhysicalDelete {
                    table_ref_id: plan.table_ref_id,
                    child: Box::new(child),
                },
            ),
        )
    }
}

} // verus!
