//! Projections.

use vstd::prelude::*;
use crate::binder::expression::BoundExpr;
use crate::binder::expression::clone_exprs;
use crate::binder::expression::exprs_view;
use crate::logical_planner::LogicalProjection;
use crate::physical_planner::lowered;
use crate::physical_planner::lowered_view;
use crate::physical_planner::PhysicalPlan;
use crate::physical_planner::PhysicalPlaner;
use crate::physical_planner::PhysicalPlanError;
use crate::physical_planner::PhysicalView;

verus! {

/// The physical plan of a projection.
#[derive(Debug, PartialEq)]
pub struct PhysicalProjection {
    pub project_expressions: Vec<BoundExpr>,
    pub child: Box<PhysicalPlan>,
}

impl PhysicalProjection {
    pub open spec fn model(&self) -> PhysicalView
        decreases self,
    {
        PhysicalView::Projection {
            project_expressions: exprs_view(self.project_expressions@),
            child: Box::new(self.child.model()),
        }
    }
}

impl View for PhysicalProjection {
    type V = PhysicalView;

    open spec fn view(&self) -> PhysicalView {
        self.model()
    }
}

impl Clone for PhysicalProjection {
    fn clone(&self) -> (copy: PhysicalProjection)
        ensures
            copy@ == self@,
    {
        PhysicalProjection {
            project_expressions: clone_exprs(&self.project_expressions),
            child: Box::new(self.child.duplicate()),
        }
    }
}

impl PhysicalPlaner {
    /// Lowers a projection.
    pub fn plan_projection(&self, plan: &LogicalProjection) -> (result: Result<PhysicalPlan, PhysicalPlanError>)
        ensures
            lowered_view(result) == Ok::<_, PhysicalPlanError>(lowered(plan@)),
        decreases plan,
    {
        let child = match self.plan_inner(&plan.child) {
            Ok(child) => child,
            Err(error) => {
                return Err(error);
            },
        };
        Ok(
            PhysicalPlan::PhysicalProjection(
                PhysicalProjection {
                    project_expressions: clone_exprs(&plan.project_expressions),
                    child: Box::new(child),
                },
            ),
        )
    }
}

} // verus!
