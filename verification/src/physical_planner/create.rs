//! `create table`.

use vstd::prelude::*;
use crate::catalog::clone_column_catalogs;
use crate::catalog::column_catalogs_view;
use crate::catalog::ColumnCatalog;
use crate::catalog::DatabaseId;
use crate::catalog::SchemaId;
use crate::logical_planner::LogicalCreateTable;
use crate::physical_planner::lowered;
use crate::physical_planner::lowered_view;
use crate::physical_planner::PhysicalPlan;
use crate::physical_planner::PhysicalPlaner;
use crate::physical_planner::PhysicalPlanError;
use crate::physical_planner::PhysicalView;

verus! {

/// The physical plan of `create table`.
#[derive(Debug, PartialEq)]
pub struct PhysicalCreateTable {
    pub database_id: DatabaseId,
    pub schema_id: SchemaId,
    pub table_name: String,
    pub columns: Vec<ColumnCatalog>,
}

impl PhysicalCreateTable {
    pub open spec fn model(&self) -> PhysicalView
    {
        PhysicalView::CreateTable {
            database_id: self.database_id,
            schema_id: self.schema_id,
            table_name: self.table_name@,
            columns: column_catalogs_view(self.columns@),
        }
    }
}

impl View for PhysicalCreateTable {
    type V = PhysicalView;

    open spec fn view(&self) -> PhysicalView {
        self.model()
    }
}

impl Clone for PhysicalCreateTable {
    fn clone(&self) -> (copy: PhysicalCreateTable)
        ensures
            copy@ == self@,
    {
        PhysicalCreateTable {
            database_id: self.database_id,
            schema_id: self.schema_id,
            table_name: self.table_name.clone(),
            columns: clone_column_catalogs(&self.columns),
        }
    }
}

impl PhysicalPlaner {
    /// Lowers a table creation.
    pub fn plan_create_table(&self, plan: &LogicalCreateTable) -> (result: Result<PhysicalPlan, PhysicalPlanError>)
        ensures
            lowered_view(result) == Ok::<_, PhysicalPlanError>(lowered(plan@)),
    {
        Ok(
            PhysicalPlan::PhysicalCreateTable(
                PhysicalCreateTable {
                    database_id: plan.database_id,
                    schema_id: plan.schema_id,
                    table_name: plan.table_name.clone(),
                    columns: clone_column_catalogs(&plan.columns),
                },
            ),
        )
    }
}

} // verus!
