//! `explain`.

use vstd::prelude::*;
use crate::logical_planner::LogicalExplain;
use crate::physical_planner::lowered;
use crate::physical_planner::lowered_view;
use crate::physical_planner::PhysicalPlan;
use crate::physical_planner::PhysicalPlaner;
use crate::physical_planner::PhysicalPlanError;
use crate::physical_planner::PhysicalView;

verus! {

/// The physical plan of `explain`.
#[derive(Debug, PartialEq)]
pub struct PhysicalExplain {
    pub child: Box<PhysicalPlan>,
}

impl PhysicalExplain {
    pub open spec fn model(&self) -> PhysicalView
        decreases self,
    {
        PhysicalView::Explain {
            child: Box::new(self.child.model()),
        }
    }
}

impl View for PhysicalExplain {
    type V = PhysicalView;

    open spec fn view(&self) -> PhysicalView {
        self.model()
    }
}

impl Clone for PhysicalExplain {
    fn clone(&self) -> (copy: PhysicalExplain)
        ensures
            copy@ == self@,
    {
        PhysicalExplain {
            child: Box::new(self.child.duplicate()),
        }
    }
}

impl PhysicalPlaner {
    /// Lowers an explanation.
    pub fn plan_explain(&self, plan: &LogicalExplain) -> (result: Result<PhysicalPlan, PhysicalPlanError>)
        ensures
            lowered_view(result) == Ok::<_, PhysicalPlanError>(lowered(plan@)),
        decreases plan,
    {
        let child = match self.plan_inner(&plan.child) {
            Ok(child) => child,
            Err(error) => {
                return Err(error);
            },
        };
        Ok(
            PhysicalPlan::PhysicalExplain(
                PhysicalExplain {
                    child: Box::new(child),
                },
            ),
        )
    }
}

} // verus!
