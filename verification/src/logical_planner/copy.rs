//! `copy`.

use std::rc::Rc;
use vstd::prelude::*;
use crate::binder::statement::BoundCopy;
use crate::binder::statement::CopyTarget;
use crate::binder::statement::CopyTargetView;
use crate::binder::statement::CopyView;
use crate::binder::statement::FileFormat;
use crate::catalog::column_catalogs_view;
use crate::catalog::column_descs_view;
use crate::catalog::ColumnCatalogView;
use crate::catalog::ColumnDesc;
use crate::catalog::ColumnDescView;
use crate::catalog::ColumnId;
use crate::logical_planner::planned_view;
use crate::logical_planner::select::LogicalGet;
use crate::logical_planner::insert::LogicalInsert;
use crate::logical_planner::LogicalPlan;
use crate::logical_planner::LogicalPlanError;
use crate::logical_planner::LogicalPlanErrorView;
use crate::logical_planner::LogicalPlanRef;
use crate::logical_planner::LogicalPlaner;
use crate::logical_planner::LogicalPlanTrait;
use crate::logical_planner::PlanChildren;
use crate::logical_planner::PlanView;
use crate::types::clone_types;
use crate::types::DataType;

verus! {

/// The logical plan of `copy from`.
#[derive(Debug, PartialEq)]
pub struct LogicalCopyFromFile {
    /// The path of the file to read.
    pub path: String,
    /// The layout of the file.
    pub format: FileFormat,
    /// The types of the columns.
    pub column_types: Vec<DataType>,
}

impl LogicalCopyFromFile {
    pub open spec fn model(&self) -> PlanView {
        PlanView::CopyFromFile {
            path: self.path@,
            format: self.format,
            column_types: self.column_types@,
        }
    }
}

impl View for LogicalCopyFromFile {
    type V = PlanView;

    open spec fn view(&self) -> PlanView {
        self.model()
    }
}

impl Clone for LogicalCopyFromFile {
    fn clone(&self) -> (copy: LogicalCopyFromFile)
        ensures
            copy@ == self@,
    {
        LogicalCopyFromFile {
            path: self.path.clone(),
            format: self.format,
            column_types: clone_types(&self.column_types),
        }
    }
}

impl LogicalPlanTrait for LogicalCopyFromFile {
    open spec fn plan_view(&self) -> PlanView {
        self.model()
    }

    fn children(&self) -> (children: PlanChildren) {
        PlanChildren::new()
    }

    fn clone_with_children(&self, children: Vec<LogicalPlanRef>) -> (plan: LogicalPlanRef) {
        Rc::new(LogicalPlan::LogicalCopyFromFile(self.clone()))
    }
}

/// The logical plan of `copy to`.
#[derive(Debug, PartialEq)]
pub struct LogicalCopyToFile {
    /// The path of the file to write.
    pub path: String,
    /// The layout of the file.
    pub format: FileFormat,
    /// The types of the columns.
    pub column_types: Vec<DataType>,
    /// The plan that yields the rows.
    pub child: LogicalPlanRef,
}

impl LogicalCopyToFile {
    pub open spec fn model(&self) -> PlanView
        decreases self,
    {
        PlanView::CopyToFile {
            path: self.path@,
            format: self.format,
            column_types: self.column_types@,
            child: Box::new(self.child.model()),
        }
    }
}

impl View for LogicalCopyToFile {
    type V = PlanView;

    open spec fn view(&self) -> PlanView {
        self.model()
    }
}

impl Clone for LogicalCopyToFile {
    fn clone(&self) -> (copy: LogicalCopyToFile)
        ensures
            copy@ == self@,
    {
        LogicalCopyToFile {
            path: self.path.clone(),
            format: self.format,
            column_types: clone_types(&self.column_types),
            child: self.child.clone(),
        }
    }
}

impl LogicalPlanTrait for LogicalCopyToFile {
    open spec fn plan_view(&self) -> PlanView {
        self.model()
    }

    fn children(&self) -> (children: PlanChildren) {
        let mut children = PlanChildren::new();
        children.push(self.child.clone());
        assert(children@ =~= self.model().children());
        children
    }

    fn clone_with_children(&self, children: Vec<LogicalPlanRef>) -> (plan: LogicalPlanRef) {
        let mut new = self.clone();
        new.child = children[0].clone();
        Rc::new(LogicalPlan::LogicalCopyToFile(new))
    }
}

/// The ids of the columns of a list.
pub open spec fn column_ids_of(columns: Seq<ColumnCatalogView>) -> Seq<ColumnId> {
    columns.map_values(|c: ColumnCatalogView| c.id)
}

/// The types of the columns of a list.
pub open spec fn column_types_of(columns: Seq<ColumnCatalogView>) -> Seq<DataType> {
    columns.map_values(|c: ColumnCatalogView| c.desc.datatype)
}

/// The descriptors of the columns of a list.
pub open spec fn column_descs_of(columns: Seq<ColumnCatalogView>) -> Seq<ColumnDescView> {
    columns.map_values(|c: ColumnCatalogView| c.desc)
}

/// The plan of a `copy` statement. Writing a table to a file is the copy over
/// a scan of the table; reading one from a file is an insertion over the
/// reading of the file. Only a file can be the target.
pub open spec fn copy_plan(stmt: CopyView) -> Result<PlanView, LogicalPlanErrorView> {
    match stmt.target {
        CopyTargetView::File { filename } => {
            let columns = stmt.columns;
            if stmt.to {
                Ok(
                    PlanView::CopyToFile {
                        path: filename,
                        format: stmt.format,
                        column_types: column_types_of(columns),
                        child: Box::new(
                            PlanView::Get {
                                table_ref_id: stmt.table_ref_id,
                                column_ids: column_ids_of(columns),
                                column_descs: column_descs_of(columns),
                                with_row_handler: false,
                                is_sorted: false,
                            },
                        ),
                    },
                )
            } else {
                Ok(
                    PlanView::Insert {
                        table_ref_id: stmt.table_ref_id,
                        column_ids: column_ids_of(columns),
                        child: Box::new(
                            PlanView::CopyFromFile {
                                path: filename,
                                format: stmt.format,
                                column_types: column_types_of(columns),
                            },
                        ),
                    },
                )
            }
        },
        _ => Err(LogicalPlanErrorView::UnsupportedCopyTarget),
    }
}

impl LogicalPlaner {
    /// Plans a `copy` statement.
    pub fn plan_copy(&self, stmt: BoundCopy) -> (result: Result<LogicalPlanRef, LogicalPlanError>)
        ensures
            planned_view(result) == copy_plan(stmt@),
    {
        let path = match stmt.target {
            CopyTarget::File { filename } => filename,
            _ => {
                return Err(LogicalPlanError::UnsupportedCopyTarget);
            },
        };
        let ghost columns = column_catalogs_view(stmt.columns@);
        let mut column_ids: Vec<ColumnId> = Vec::new();
        let mut column_types: Vec<DataType> = Vec::new();
        let mut column_descs: Vec<ColumnDesc> = Vec::new();
        let mut i: usize = 0;
        while i < stmt.columns.len()
            invariant
                i <= stmt.columns.len(),
                columns == column_catalogs_view(stmt.columns@),
                column_ids.len() == i,
                column_types.len() == i,
                column_descs.len() == i,
                forall|j: int| 0 <= j < i ==> column_ids[j] == columns[j].id,
                forall|j: int| 0 <= j < i ==> column_types[j] == columns[j].desc.datatype,
                forall|j: int| 0 <= j < i ==> column_descs[j]@ == columns[j].desc,
            decreases stmt.columns.len() - i,
        {
            let column = &stmt.columns[i];
            column_ids.push(column.id());
            column_types.push(column.datatype());
            column_descs.push(column.desc.clone());
            i += 1;
        }
        assert(column_ids@ =~= column_ids_of(columns));
        assert(column_types@ =~= column_types_of(columns));
        assert(column_descs_view(column_descs@) =~= column_descs_of(columns));
        if stmt.to {
            let scan = LogicalGet {
                table_ref_id: stmt.table_ref_id,
                column_ids,
                column_descs,
                with_row_handler: false,
                is_sorted: false,
            };
            let child = Rc::new(LogicalPlan::LogicalGet(scan));
            assert(child@ == scan.model());
            Ok(
                Rc::new(
                    LogicalPlan::LogicalCopyToFile(
                        LogicalCopyToFile { path, format: stmt.format, column_types, child },
                    ),
                ),
            )
        } else {
            let source = LogicalCopyFromFile { path, format: stmt.format, column_types };
            let child = Rc::new(LogicalPlan::LogicalCopyFromFile(source));
            assert(child@ == source.model());
            Ok(
                Rc::new(
                    LogicalPlan::LogicalInsert(
                        LogicalInsert { table_ref_id: stmt.table_ref_id, column_ids, child },
                    ),
                ),
            )
        }
    }
}

} // verus!
