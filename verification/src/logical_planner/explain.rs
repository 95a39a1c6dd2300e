//! `explain`.

use std::rc::Rc;
use vstd::prelude::*;
use crate::binder::statement::BoundStatement;
use crate::binder::statement::StatementView;
use crate::logical_planner::planned_view;
use crate::logical_planner::statement_fits;
use crate::logical_planner::statement_plan;
use crate::logical_planner::LogicalPlan;
use crate::logical_planner::LogicalPlanError;
use crate::logical_planner::LogicalPlanRef;
use crate::logical_planner::LogicalPlaner;
use crate::logical_planner::LogicalPlanTrait;
use crate::logical_planner::PlanChildren;
use crate::logical_planner::PlanView;

verus! {

/// The logical plan of `explain`.
#[derive(Debug, PartialEq)]
pub struct LogicalExplain {
    pub child: LogicalPlanRef,
}

impl LogicalExplain {
    pub open spec fn model(&self) -> PlanView
        decreases self,
    {
        PlanView::Explain { child: Box::new(self.child.model()) }
    }
}

impl View for LogicalExplain {
    type V = PlanView;

    open spec fn view(&self) -> PlanView {
        self.model()
    }
}

impl Clone for LogicalExplain {
    fn clone(&self) -> (copy: LogicalExplain)
        ensures
            copy@ == self@,
    {
        LogicalExplain { child: self.child.clone() }
    }
}

impl LogicalPlanTrait for LogicalExplain {
    open spec fn plan_view(&self) -> PlanView {
        self.model()
    }

    fn children(&self) -> (children: PlanChildren) {
        let mut children = PlanChildren::new();
        children.push(self.child.clone());
        assert(children@ =~= self.model().children());
        children
    }

    fn clone_with_children(&self, children: Vec<LogicalPlanRef>) -> (plan: LogicalPlanRef) {
        let mut new = self.clone();
        new.child = children[0].clone();
        Rc::new(LogicalPlan::LogicalExplain(new))
    }
}

impl LogicalPlaner {
    /// Plans the statement that is to be explained, and puts the explanation
    /// over it.
    pub fn plan_explain(&self, stmt: BoundStatement) -> (result: Result<
        LogicalPlanRef,
        LogicalPlanError,
    >)
        requires
            statement_fits(stmt@),
        ensures
            planned_view(result) == statement_plan(StatementView::Explain(Box::new(stmt@))),
        decreases stmt, 1nat,
    {
        match self.plan(stmt) {
            Ok(child) => Ok(Rc::new(LogicalPlan::LogicalExplain(LogicalExplain { child }))),
            Err(error) => Err(error),
        }
    }
}

} // verus!
