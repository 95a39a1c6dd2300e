//! The dummy.

use vstd::prelude::*;
use crate::logical_planner::LogicalDummy;
use crate::physical_planner::lowered;
use crate::physical_planner::lowered_view;
use crate::physical_planner::PhysicalPlan;
use crate::physical_planner::PhysicalPlaner;
use crate::physical_planner::PhysicalPlanError;
use crate::physical_planner::PhysicalView;

verus! {

/// The physical plan that yields one empty row.
#[derive(Clone, Copy, Debug, PartialEq, Eq, Structural)]
pub struct PhysicalDummy;

impl PhysicalDummy {
    pub open spec fn model(&self) -> PhysicalView {
        PhysicalView::Dummy
    }
}

impl View for PhysicalDummy {
    type V = PhysicalView;

    open spec fn view(&self) -> PhysicalView {
        self.model()
    }
}

impl PhysicalPlaner {
    /// Lowers the dummy.
    pub fn plan_dummy(&self, plan: &LogicalDummy) -> (result: Result<PhysicalPlan, PhysicalPlanError>)
        ensures
            lowered_view(result) == Ok::<_, PhysicalPlanError>(lowered(plan@)),
    {
        Ok(PhysicalPlan::PhysicalDummy(PhysicalDummy))
    }
}

} // verus!
