//! `drop`.

use std::rc::Rc;
use vstd::prelude::*;
use crate::binder::statement::BoundDrop;
use crate::binder::statement::Object;
use crate::logical_planner::planned_view;
use crate::logical_planner::LogicalPlan;
use crate::logical_planner::LogicalPlanError;
use crate::logical_planner::LogicalPlanErrorView;
use crate::logical_planner::LogicalPlanRef;
use crate::logical_planner::LogicalPlaner;
use crate::logical_planner::LogicalPlanTrait;
use crate::logical_planner::PlanChildren;
use crate::logical_planner::PlanView;

verus! {

/// The logical plan of `drop`.
#[derive(Debug, PartialEq)]
pub struct LogicalDrop {
    pub object: Object,
}

impl LogicalDrop {
    pub open spec fn model(&self) -> PlanView {
        PlanView::Drop { object: self.object }
    }
}

impl View for LogicalDrop {
    type V = PlanView;

    open spec fn view(&self) -> PlanView {
        self.model()
    }
}

impl Clone for LogicalDrop {
    fn clone(&self) -> (copy: LogicalDrop)
        ensures
            copy@ == self@,
    {
        LogicalDrop { object: self.object }
    }
}

impl LogicalPlanTrait for LogicalDrop {
    open spec fn plan_view(&self) -> PlanView {
        self.model()
    }

    fn children(&self) -> (children: PlanChildren) {
        PlanChildren::new()
    }

    fn clone_with_children(&self, children: Vec<LogicalPlanRef>) -> (plan: LogicalPlanRef) {
        Rc::new(LogicalPlan::LogicalDrop(self.clone()))
    }
}

/// The plan of a `drop` statement.
pub open spec fn drop_plan(stmt: BoundDrop) -> PlanView {
    PlanView::Drop { object: stmt.object }
}

impl LogicalPlaner {
    /// Plans a `drop` statement.
    pub fn plan_drop(&self, stmt: BoundDrop) -> (result: Result<LogicalPlanRef, LogicalPlanError>)
        ensures
            planned_view(result) == Ok::<_, LogicalPlanErrorView>(drop_plan(stmt)),
    {
        Ok(Rc::new(LogicalPlan::LogicalDrop(LogicalDrop { object: stmt.object })))
    }
}

} // verus!
