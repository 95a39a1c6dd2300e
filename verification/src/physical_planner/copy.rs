//! `copy`.

use vstd::prelude::*;
use crate::binder::statement::FileFormat;
use crate::logical_planner::LogicalCopyFromFile;
use crate::logical_planner::LogicalCopyToFile;
use crate::physical_planner::lowered;
use crate::physical_planner::lowered_view;
use crate::physical_planner::PhysicalPlan;
use crate::physical_planner::PhysicalPlaner;
use crate::physical_planner::PhysicalPlanError;
use crate::physical_planner::PhysicalView;
use crate::types::clone_types;
use crate::types::DataType;

verus! {

/// The physical plan of `copy from`.
#[derive(Debug, PartialEq)]
pub struct PhysicalCopyFromFile {
    pub path: String,
    pub format: FileFormat,
    pub column_types: Vec<DataType>,
}

impl PhysicalCopyFromFile {
    pub open spec fn model(&self) -> PhysicalView
    {
        PhysicalView::CopyFromFile {
            path: self.path@,
            format: self.format,
            column_types: self.column_types@,
        }
    }
}

impl View for PhysicalCopyFromFile {
    type V = PhysicalView;

    open spec fn view(&self) -> PhysicalView {
        self.model()
    }
}

impl Clone for PhysicalCopyFromFile {
    fn clone(&self) -> (copy: PhysicalCopyFromFile)
        ensures
            copy@ == self@,
    {
        PhysicalCopyFromFile {
            path: self.path.clone(),
            format: self.format,
            column_types: clone_types(&self.column_types),
        }
    }
}

impl PhysicalPlaner {
    /// Lowers a copy from a file.
    pub fn plan_copy_from_file(&self, plan: &LogicalCopyFromFile) -> (result: Result<PhysicalPlan, PhysicalPlanError>)
        ensures
            lowered_view(result) == Ok::<_, PhysicalPlanError>(lowered(plan@)),
    {
        Ok(
            PhysicalPlan::PhysicalCopyFromFile(
                PhysicalCopyFromFile {
                    path: plan.path.clone(),
                    format: plan.format,
                    column_types: clone_types(&plan.column_types),
                },
            ),
        )
    }
}

/// The physical plan of `copy to`.
#[derive(Debug, PartialEq)]
pub struct PhysicalCopyToFile {
    pub path: String,
    pub format: FileFormat,
    pub column_types: Vec<DataType>,
    pub child: Box<PhysicalPlan>,
}

impl PhysicalCopyToFile {
    pub open spec fn model(&self) -> PhysicalView
        decreases self,
    {
        PhysicalView::CopyToFile {
            path: self.path@,
            format: self.format,
            column_types: self.column_types@,
            child: Box::new(self.child.model()),
        }
    }
}

impl View for PhysicalCopyToFile {
    type V = PhysicalView;

    open spec fn view(&self) -> PhysicalView {
        self.model()
    }
}

impl Clone for PhysicalCopyToFile {
    fn clone(&self) -> (copy: PhysicalCopyToFile)
        ensures
            copy@ == self@,
    {
        PhysicalCopyToFile {
            path: self.path.clone(),
            format: self.format,
            column_types: clone_types(&self.column_types),
            child: Box::new(self.child.duplicate()),
        }
    }
}

impl PhysicalPlaner {
    /// Lowers a copy to a file.
    pub fn plan_copy_to_file(&self, plan: &LogicalCopyToFile) -> (result: Result<PhysicalPlan, PhysicalPlanError>)
        ensures
            lowered_view(result) == Ok::<_, PhysicalPlanError>(lowered(plan@)),
        decreases plan,
    {
        let child = match self.plan_inner(&plan.child) {
            Ok(child) => child,
            Err(error) => {
                return Err(error);
            },
        };
        Ok(
            PhysicalPlan::PhysicalCopyToFile(
                PhysicalCopyToFile {
                    path: plan.path.clone(),
                    format: plan.format,
                    column_types: clone_types(&plan.column_types),
                    child: Box::new(child),
                },
            ),
        )
    }
}

} // verus!
