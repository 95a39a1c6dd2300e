//! `insert`.

use std::rc::Rc;
use vstd::prelude::*;
use crate::binder::expression::clone_rows;
use crate::binder::expression::rows_view;
use crate::binder::expression::BoundExpr;
use crate::binder::statement::BoundInsert;
use crate::binder::statement::InsertView;
use crate::catalog::clone_column_ids;
use crate::catalog::ColumnId;
use crate::catalog::TableRefId;
use crate::logical_planner::planned_view;
use crate::logical_planner::LogicalPlan;
use crate::logical_planner::LogicalPlanError;
use crate::logical_planner::LogicalPlanErrorView;
use crate::logical_planner::LogicalPlanRef;
use crate::logical_planner::LogicalPlaner;
use crate::logical_planner::LogicalPlanTrait;
use crate::logical_planner::PlanChildren;
use crate::logical_planner::PlanView;
use crate::types::clone_types;
use crate::types::DataType;

verus! {

/// The logical plan of `insert`.
#[derive(Debug, PartialEq)]
pub struct LogicalInsert {
    pub table_ref_id: TableRefId,
    pub column_ids: Vec<ColumnId>,
    pub child: LogicalPlanRef,
}

impl LogicalInsert {
    pub open spec fn model(&self) -> PlanView
        decreases self,
    {
        PlanView::Insert {
            table_ref_id: self.table_ref_id,
            column_ids: self.column_ids@,
            child: Box::new(self.child.model()),
        }
    }
}

impl View for LogicalInsert {
    type V = PlanView;

    open spec fn view(&self) -> PlanView {
        self.model()
    }
}

impl Clone for LogicalInsert {
    fn clone(&self) -> (copy: LogicalInsert)
        ensures
            copy@ == self@,
    {
        LogicalInsert {
            table_ref_id: self.table_ref_id,
            column_ids: clone_column_ids(&self.column_ids),
            child: self.child.clone(),
        }
    }
}

impl LogicalPlanTrait for LogicalInsert {
    open spec fn plan_view(&self) -> PlanView {
        self.model()
    }

    fn children(&self) -> (children: PlanChildren) {
        let mut children = PlanChildren::new();
        children.push(self.child.clone());
        assert(children@ =~= self.model().children());
        children
    }

    fn clone_with_children(&self, children: Vec<LogicalPlanRef>) -> (plan: LogicalPlanRef) {
        let mut new = self.clone();
        new.child = children[0].clone();
        Rc::new(LogicalPlan::LogicalInsert(new))
    }
}

/// The logical plan of `values`.
#[derive(Debug, PartialEq)]
pub struct LogicalValues {
    pub column_types: Vec<DataType>,
    pub values: Vec<Vec<BoundExpr>>,
}

impl LogicalValues {
    pub open spec fn model(&self) -> PlanView {
        PlanView::Values { column_types: self.column_types@, values: rows_view(self.values@) }
    }
}

impl View for LogicalValues {
    type V = PlanView;

    open spec fn view(&self) -> PlanView {
        self.model()
    }
}

impl Clone for LogicalValues {
    fn clone(&self) -> (copy: LogicalValues)
        ensures
            copy@ == self@,
    {
        LogicalValues {
            column_types: clone_types(&self.column_types),
            values: clone_rows(&self.values),
        }
    }
}

impl LogicalPlanTrait for LogicalValues {
    open spec fn plan_view(&self) -> PlanView {
        self.model()
    }

    fn children(&self) -> (children: PlanChildren) {
        PlanChildren::new()
    }

    fn clone_with_children(&self, children: Vec<LogicalPlanRef>) -> (plan: LogicalPlanRef) {
        Rc::new(LogicalPlan::LogicalValues(self.clone()))
    }
}

/// The plan of an `insert` statement: the insertion over the rows of values.
pub open spec fn insert_plan(stmt: InsertView) -> PlanView {
    PlanView::Insert {
        table_ref_id: stmt.table_ref_id,
        column_ids: stmt.column_ids,
        child: Box::new(
            PlanView::Values { column_types: stmt.column_types, values: stmt.values },
        ),
    }
}

impl LogicalPlaner {
    /// Plans an `insert` statement.
    pub fn plan_insert(&self, stmt: BoundInsert) -> (result: Result<
        LogicalPlanRef,
        LogicalPlanError,
    >)
        ensures
            planned_view(result) == Ok::<_, LogicalPlanErrorView>(insert_plan(stmt@)),
    {
        let values = LogicalValues { column_types: stmt.column_types, values: stmt.values };
        let child = Rc::new(LogicalPlan::LogicalValues(values));
        assert(child@ == values.model());
        Ok(
            Rc::new(
                LogicalPlan::LogicalInsert(
                    LogicalInsert {
                        table_ref_id: stmt.table_ref_id,
                        column_ids: stmt.column_ids,
                        child,
                    },
                ),
            ),
        )
    }
}

} // verus!
