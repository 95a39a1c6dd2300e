//! Limits.

use vstd::prelude::*;
use crate::logical_planner::LogicalLimit;
use crate::physical_planner::lowered;
use crate::physical_planner::lowered_view;
use crate::physical_planner::PhysicalPlan;
use crate::physical_planner::PhysicalPlaner;
use crate::physical_planner::PhysicalPlanError;
use crate::physical_planner::PhysicalView;

verus! {

/// The physical plan of a limit.
#[derive(Debug, PartialEq)]
pub struct PhysicalLimit {
    pub offset: usize,
    pub limit: usize,
    pub child: Box<PhysicalPlan>,
}

impl PhysicalLimit {
    pub open spec fn model(&self) -> PhysicalView
        decreases self,
    {
        PhysicalView::Limit {
            offset: self.offset,
            limit: self.limit,
            child: Box::new(self.child.model()),
        }
    }
}

impl View for PhysicalLimit {
    type V = PhysicalView;

    open spec fn view(&self) -> PhysicalView {
        self.model()
    }
}

impl Clone for PhysicalLimit {
    fn clone(&self) -> (copy: PhysicalLimit)
        ensures
            copy@ == self@,
    {
        PhysicalLimit {
            offset: self.offset,
            limit: self.limit,
            child: Box::new(self.child.duplicate()),
        }
    }
}

impl PhysicalPlaner {
    /// Lowers a limit.
    pub fn plan_limit(&self, plan: &LogicalLimit) -> (result: Result<PhysicalPlan, PhysicalPlanError>)
        ensures
            lowered_view(result) == Ok::<_, PhysicalPlanError>(lowered(plan@)),
        decreases plan,
    {
        let child = match self.plan_inner(&plan.child) {
            Ok(child) => child,
            Err(error) => {
                return Err(error);
            },
        };
        Ok(
            PhysicalPlan::PhysicalLimit(
                PhysicalLimit {
                    offset: plan.offset,
                    limit: plan.limit,
                    child: Box::new(child),
                },
            ),
        )
    }
}

} // verus!
