//! Joins.

use vstd::prelude::*;
use crate::binder::statement::BoundJoinOperator;
use crate::logical_planner::LogicalJoin;
use crate::physical_planner::lowered;
use crate::physical_planner::lowered_view;
use crate::physical_planner::PhysicalPlan;
use crate::physical_planner::PhysicalPlaner;
use crate::physical_planner::PhysicalPlanError;
use crate::physical_planner::PhysicalView;

verus! {

/// The physical plan of a join.
#[derive(Debug, PartialEq)]
pub struct PhysicalJoin {
    pub join_op: BoundJoinOperator,
    pub left_plan: Box<PhysicalPlan>,
    pub right_plan: Box<PhysicalPlan>,
}

impl PhysicalJoin {
    pub open spec fn model(&self) -> PhysicalView
        decreases self,
    {
        PhysicalView::Join {
            join_op: self.join_op@,
            left_plan: Box::new(self.left_plan.model()),
            right_plan: Box::new(self.right_plan.model()),
        }
    }
}

impl View for PhysicalJoin {
    type V = PhysicalView;

    open spec fn view(&self) -> PhysicalView {
        self.model()
    }
}

impl Clone for PhysicalJoin {
    fn clone(&self) -> (copy: PhysicalJoin)
        ensures
            copy@ == self@,
    {
        PhysicalJoin {
            join_op: self.join_op.clone(),
            left_plan: Box::new(self.left_plan.duplicate()),
            right_plan: Box::new(self.right_plan.duplicate()),
        }
    }
}

impl PhysicalPlaner {
    /// Lowers a join.
    pub fn plan_join(&self, plan: &LogicalJoin) -> (result: Result<PhysicalPlan, PhysicalPlanError>)
        ensures
            lowered_view(result) == Ok::<_, PhysicalPlanError>(lowered(plan@)),
        decreases plan,
    {
        let left_plan = match self.plan_inner(&plan.left_plan) {
            Ok(left_plan) => left_plan,
            Err(error) => {
                return Err(error);
            },
        };
        let right_plan = match self.plan_inner(&plan.right_plan) {
            Ok(right_plan) => right_plan,
            Err(error) => {
                return Err(error);
            },
        };
        Ok(
            PhysicalPlan::PhysicalJoin(
                PhysicalJoin {
                    join_op: plan.join_op.clone(),
                    left_plan: Box::new(left_plan),
                    right_plan: Box::new(right_plan),
                },
            ),
        )
    }
}

} // verus!
