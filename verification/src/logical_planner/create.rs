//! `create table`.

use std::rc::Rc;
use vstd::prelude::*;
use crate::binder::statement::BoundCreateTable;
use crate::binder::statement::CreateTableView;
use crate::catalog::clone_column_catalogs;
use crate::catalog::column_catalogs_view;
use crate::catalog::ColumnCatalog;
use crate::catalog::DatabaseId;
use crate::catalog::SchemaId;
use crate::logical_planner::planned_view;
use crate::logical_planner::LogicalPlan;
use crate::logical_planner::LogicalPlanError;
use crate::logical_planner::LogicalPlanErrorView;
use crate::logical_planner::LogicalPlanRef;
use crate::logical_planner::LogicalPlaner;
use crate::logical_planner::LogicalPlanTrait;
use crate::logical_planner::PlanChildren;
use crate::logical_planner::PlanView;

verus! {

/// The logical plan of `create table`.
#[derive(Debug, PartialEq)]
pub struct LogicalCreateTable {
    pub database_id: DatabaseId,
    pub schema_id: SchemaId,
    pub table_name: String,
    pub columns: Vec<ColumnCatalog>,
}

impl LogicalCreateTable {
    pub open spec fn model(&self) -> PlanView {
        PlanView::CreateTable {
            database_id: self.database_id,
            schema_id: self.schema_id,
            table_name: self.table_name@,
            columns: column_catalogs_view(self.columns@),
        }
    }
}

impl View for LogicalCreateTable {
    type V = PlanView;

    open spec fn view(&self) -> PlanView {
        self.model()
    }
}

impl Clone for LogicalCreateTable {
    fn clone(&self) -> (copy: LogicalCreateTable)
        ensures
            copy@ == self@,
    {
        LogicalCreateTable {
            database_id: self.database_id,
            schema_id: self.schema_id,
            table_name: self.table_name.clone(),
            columns: clone_column_catalogs(&self.columns),
        }
    }
}

impl LogicalPlanTrait for LogicalCreateTable {
    open spec fn plan_view(&self) -> PlanView {
        self.model()
    }

    fn children(&self) -> (children: PlanChildren) {
        PlanChildren::new()
    }

    fn clone_with_children(&self, children: Vec<LogicalPlanRef>) -> (plan: LogicalPlanRef) {
        Rc::new(LogicalPlan::LogicalCreateTable(self.clone()))
    }
}

/// The plan of a `create table` statement: the statement's own fields.
pub open spec fn create_table_plan(stmt: CreateTableView) -> PlanView {
    PlanView::CreateTable {
        database_id: stmt.database_id,
        schema_id: stmt.schema_id,
        table_name: stmt.table_name,
        columns: stmt.columns,
    }
}

impl LogicalPlaner {
    /// Plans a `create table` statement.
    pub fn plan_create_table(&self, stmt: BoundCreateTable) -> (result: Result<
        LogicalPlanRef,
        LogicalPlanError,
    >)
        ensures
            planned_view(result) == Ok::<_, LogicalPlanErrorView>(create_table_plan(stmt@)),
    {
        Ok(
            Rc::new(
                LogicalPlan::LogicalCreateTable(
                    LogicalCreateTable {
                        database_id: stmt.database_id,
                        schema_id: stmt.schema_id,
                        table_name: stmt.table_name,
                        columns: stmt.columns,
                    },
                ),
            ),
        )
    }
}

} // verus!
