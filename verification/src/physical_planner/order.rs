//! Orderings.

use vstd::prelude::*;
use crate::binder::statement::BoundOrderBy;
use crate::binder::statement::clone_order_bys;
use crate::binder::statement::order_bys_view;
use crate::logical_planner::LogicalOrder;
use crate::physical_planner::lowered;
use crate::physical_planner::lowered_view;
use crate::physical_planner::PhysicalPlan;
use crate::physical_planner::PhysicalPlaner;
use crate::physical_planner::PhysicalPlanError;
use crate::physical_planner::PhysicalView;

verus! {

/// The physical plan of an ordering.
#[derive(Debug, PartialEq)]
pub struct PhysicalOrder {
    pub comparators: Vec<BoundOrderBy>,
    pub child: Box<PhysicalPlan>,
}

impl PhysicalOrder {
    pub open spec fn model(&self) -> PhysicalView
        decreases self,
    {
        PhysicalView::Order {
            comparators: order_bys_view(self.comparators@),
            child: Box::new(self.child.model()),
        }
    }
}

impl View for PhysicalOrder {
    type V = PhysicalView;

    open spec fn view(&self) -> PhysicalView {
        self.model()
    }
}

impl Clone for PhysicalOrder {
    fn clone(&self) -> (copy: PhysicalOrder)
        ensures
            copy@ == self@,
    {
        PhysicalOrder {
            comparators: clone_order_bys(&self.comparators),
            child: Box::new(self.child.duplicate()),
        }
    }
}

impl PhysicalPlaner {
    /// Lowers an ordering.
    pub fn plan_order(&self, plan: &LogicalOrder) -> (result: Result<PhysicalPlan, PhysicalPlanError>)
        ensures
            lowered_view(result) == Ok::<_, PhysicalPlanError>(lowered(plan@)),
        decreases plan,
    {
        let child = match self.plan_inner(&plan.child) {
            Ok(child) => child,
            Err(error) => {
                return Err(error);
            },
        };
        Ok(
            PhysicalPlan::PhysicalOrder(
                PhysicalOrder {
                    comparators: clone_order_bys(&plan.comparators),
                    child: Box::new(child),
                },
            ),
        )
    }
}

} // verus!
