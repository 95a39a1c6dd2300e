//! `drop`.

use vstd::prelude::*;
use crate::binder::statement::Object;
use crate::logical_planner::LogicalDrop;
use crate::physical_planner::lowered;
use crate::physical_planner::lowered_view;
use crate::physical_planner::PhysicalPlan;
use crate::physical_planner::PhysicalPlaner;
use crate::physical_planner::PhysicalPlanError;
use crate::physical_planner::PhysicalView;

verus! {

/// The physical plan of `drop`.
#[derive(Debug, PartialEq)]
pub struct PhysicalDrop {
    pub object: Object,
}

impl PhysicalDrop {
    pub open spec fn model(&self) -> PhysicalView
    {
        PhysicalView::Drop {
            object: self.object,
        }
    }
}

impl View for PhysicalDrop {
    type V = PhysicalView;

    open spec fn view(&self) -> PhysicalView {
        self.model()
    }
}

impl Clone for PhysicalDrop {
    fn clone(&self) -> (copy: PhysicalDrop)
        ensures
            copy@ == self@,
    {
        PhysicalDrop {
            object: self.object,
        }
    }
}

impl PhysicalPlaner {
    /// Lowers a drop.
    pub fn plan_drop(&self, plan: &LogicalDrop) -> (result: Result<PhysicalPlan, PhysicalPlanError>)
        ensures
            lowered_view(result) == Ok::<_, PhysicalPlanError>(lowered(plan@)),
    {
        Ok(
            PhysicalPlan::PhysicalDrop(
                PhysicalDrop {
                    object: plan.object,
                },
            ),
        )
    }
}

} // verus!
