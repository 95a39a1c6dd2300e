//! Sequential scans.

use vstd::prelude::*;
use crate::catalog::clone_column_descs;
use crate::catalog::clone_column_ids;
use crate::catalog::column_descs_view;
use crate::catalog::ColumnDesc;
use crate::catalog::ColumnId;
use crate::catalog::TableRefId;
use crate::logical_planner::LogicalGet;
use crate::physical_planner::lowered;
use crate::physical_planner::lowered_view;
use crate::physical_planner::PhysicalPlan;
use crate::physical_planner::PhysicalPlaner;
use crate::physical_planner::PhysicalPlanError;
use crate::physical_planner::PhysicalView;

verus! {

/// The physical plan of a sequential scan.
#[derive(Debug, PartialEq)]
pub struct PhysicalSeqScan {
    pub table_ref_id: TableRefId,
    pub column_ids: Vec<ColumnId>,
    pub column_descs: Vec<ColumnDesc>,
    pub with_row_handler: bool,
    pub is_sorted: bool,
}

impl PhysicalSeqScan {
    pub open spec fn model(&self) -> PhysicalView
    {
        PhysicalView::SeqScan {
            table_ref_id: self.table_ref_id,
            column_ids: self.column_ids@,
            column_descs: column_descs_view(self.column_descs@),
            with_row_handler: self.with_row_handler,
            is_sorted: self.is_sorted,
        }
    }
}

impl View for PhysicalSeqScan {
    type V = PhysicalView;

    open spec fn view(&self) -> PhysicalView {
        self.model()
    }
}

impl Clone for PhysicalSeqScan {
    fn clone(&self) -> (copy: PhysicalSeqScan)
        ensures
            copy@ == self@,
    {
        PhysicalSeqScan {
            table_ref_id: self.table_ref_id,
            column_ids: clone_column_ids(&self.column_ids),
            column_descs: clone_column_descs(&self.column_descs),
            with_row_handler: self.with_row_handler,
            is_sorted: self.is_sorted,
        }
    }
}

impl PhysicalPlaner {
    /// Lowers a table scan.
    pub fn plan_get(&self, plan: &LogicalGet) -> (result: Result<PhysicalPlan, PhysicalPlanError>)
        ensures
            lowered_view(result) == Ok::<_, PhysicalPlanError>(lowered(plan@)),
    {
        Ok(
            PhysicalPlan::PhysicalSeqScan(
                PhysicalSeqScan {
                    table_ref_id: plan.table_ref_id,
                    column_ids: clone_column_ids(&plan.column_ids),
                    column_descs: clone_column_descs(&plan.column_descs),
                    with_row_handler: plan.with_row_handler,
                    is_sorted: plan.is_sorted,
                },
            ),
        )
    }
}

} // verus!
