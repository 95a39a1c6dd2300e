//! Filters.

use vstd::prelude::*;
use crate::binder::expression::BoundExpr;
use crate::logical_planner::LogicalFilter;
use crate::physical_planner::lowered;
use crate::physical_planner::lowered_view;
use crate::physical_planner::PhysicalPlan;
use crate::physical_planner::PhysicalPlaner;
use crate::physical_planner::PhysicalPlanError;
use crate::physical_planner::PhysicalView;

verus! {

/// The physical plan of a filter.
#[derive(Debug, PartialEq)]
pub struct PhysicalFilter {
    pub expr: BoundExpr,
    pub child: Box<PhysicalPlan>,
}

impl PhysicalFilter {
    pub open spec fn model(&self) -> PhysicalView
        decreases self,
    {
        PhysicalView::Filter {
            expr: self.expr@,
            child: Box::new(self.child.model()),
        }
    }
}

impl View for PhysicalFilter {
    type V = PhysicalView;

    open spec fn view(&self) -> PhysicalView {
        self.model()
    }
}

impl Clone for PhysicalFilter {
    fn clone(&self) -> (copy: PhysicalFilter)
        ensures
            copy@ == self@,
    {
        PhysicalFilter {
            expr: self.expr.clone(),
            child: Box::new(self.child.duplicate()),
        }
    }
}

impl PhysicalPlaner {
    /// Lowers a filter.
    pub fn plan_filter(&self, plan: &LogicalFilter) -> (result: Result<PhysicalPlan, PhysicalPlanError>)
        ensures
            lowered_view(result) == Ok::<_, PhysicalPlanError>(lowered(plan@)),
        decreases plan,
    {
        let child = match self.plan_inner(&plan.child) {
            Ok(child) => child,
            Err(error) => {
                return Err(error);
            },
        };
        Ok(
            PhysicalPlan::PhysicalFilter(
                PhysicalFilter {
                    expr: plan.expr.clone(),
                    child: Box::new(child),
                },
            ),
        )
    }
}

} // verus!
