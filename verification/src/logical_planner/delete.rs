//! `delete`.

use std::rc::Rc;
use vstd::prelude::*;
use crate::binder::statement::BoundDelete;
use crate::binder::statement::BoundTableRef;
use crate::binder::statement::DeleteView;
use crate::binder::statement::TableRefView;
use crate::catalog::TableRefId;
use crate::logical_planner::planned_view;
use crate::logical_planner::select::table_plan;
use crate::logical_planner::select::LogicalFilter;
use crate::logical_planner::LogicalPlan;
use crate::logical_planner::LogicalPlanError;
use crate::logical_planner::LogicalPlanErrorView;
use crate::logical_planner::LogicalPlanRef;
use crate::logical_planner::LogicalPlaner;
use crate::logical_planner::LogicalPlanTrait;
use crate::logical_planner::PlanChildren;
use crate::logical_planner::PlanView;

verus! {

/// The logical plan of `delete`.
#[derive(Debug, PartialEq)]
pub struct LogicalDelete {
    pub table_ref_id: TableRefId,
    pub child: LogicalPlanRef,
}

impl LogicalDelete {
    pub open spec fn model(&self) -> PlanView
        decreases self,
    {
        PlanView::Delete { table_ref_id: self.table_ref_id, child: Box::new(self.child.model()) }
    }
}

impl View for LogicalDelete {
    type V = PlanView;

    open spec fn view(&self) -> PlanView {
        self.model()
    }
}

impl Clone for LogicalDelete {
    fn clone(&self) -> (copy: LogicalDelete)
        ensures
            copy@ == self@,
    {
        LogicalDelete { table_ref_id: self.table_ref_id, child: self.child.clone() }
    }
}

impl LogicalPlanTrait for LogicalDelete {
    open spec fn plan_view(&self) -> PlanView {
        self.model()
    }

    fn children(&self) -> (children: PlanChildren) {
        let mut children = PlanChildren::new();
        children.push(self.child.clone());
        assert(children@ =~= self.model().children());
        children
    }

    fn clone_with_children(&self, children: Vec<LogicalPlanRef>) -> (plan: LogicalPlanRef) {
        let mut new = self.clone();
        new.child = children[0].clone();
        Rc::new(LogicalPlan::LogicalDelete(new))
    }
}

/// The plan of a `delete` statement: the deletion over the predicate over a
/// scan that hands out row handles. The statement must name one table and
/// have a predicate.
pub open spec fn delete_plan(stmt: DeleteView) -> Result<PlanView, LogicalPlanErrorView> {
    match stmt.from_table {
        TableRefView::Base { ref_id, .. } => match stmt.where_clause {
            Some(expr) => Ok(
                PlanView::Delete {
                    table_ref_id: ref_id,
                    child: Box::new(
                        PlanView::Filter {
                            expr,
                            child: Box::new(table_plan(stmt.from_table, true, false)),
                        },
                    ),
                },
            ),
            None => Err(LogicalPlanErrorView::DeleteWithoutPredicate),
        },
        _ => Err(LogicalPlanErrorView::UnsupportedDeleteTarget),
    }
}

impl LogicalPlaner {
    /// Plans a `delete` statement.
    pub fn plan_delete(&self, stmt: BoundDelete) -> (result: Result<
        LogicalPlanRef,
        LogicalPlanError,
    >)
        ensures
            planned_view(result) == delete_plan(stmt@),
    {
        let table_ref_id = match &stmt.from_table {
            BoundTableRef::BaseTableRef { ref_id, .. } => *ref_id,
            _ => {
                return Err(LogicalPlanError::UnsupportedDeleteTarget);
            },
        };
        match stmt.where_clause {
            Some(expr) => {
                let child = match self.plan_table_ref(&stmt.from_table, true, false) {
                    Ok(child) => child,
                    Err(error) => {
                        return Err(error);
                    },
                };
                let filter = Rc::new(LogicalPlan::LogicalFilter(LogicalFilter { expr, child }));
                assert(filter@ == PlanView::Filter { expr: expr@, child: Box::new(child@) });
                Ok(Rc::new(LogicalPlan::LogicalDelete(LogicalDelete { table_ref_id, child: filter })))
            },
            None => Err(LogicalPlanError::DeleteWithoutPredicate),
        }
    }
}

} // verus!
