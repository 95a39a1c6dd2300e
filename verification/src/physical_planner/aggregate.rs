//! Aggregations.

use vstd::prelude::*;
use crate::binder::agg_call::agg_calls_view;
use crate::binder::agg_call::clone_agg_calls;
use crate::binder::agg_call::BoundAggCall;
use crate::binder::expression::clone_exprs;
use crate::binder::expression::exprs_view;
use crate::binder::expression::BoundExpr;
use crate::logical_planner::LogicalAggregate;
use crate::physical_planner::lowered;
use crate::physical_planner::lowered_view;
use crate::physical_planner::PhysicalPlan;
use crate::physical_planner::PhysicalPlanError;
use crate::physical_planner::PhysicalPlaner;
use crate::physical_planner::PhysicalView;

verus! {

/// The physical plan of an aggregation of all rows into one group.
#[derive(Debug, PartialEq)]
pub struct PhysicalSimpleAgg {
    pub agg_calls: Vec<BoundAggCall>,
    pub child: Box<PhysicalPlan>,
}

impl PhysicalSimpleAgg {
    pub open spec fn model(&self) -> PhysicalView
        decreases self,
    {
        PhysicalView::SimpleAgg {
            agg_calls: agg_calls_view(self.agg_calls@),
            child: Box::new(self.child.model()),
        }
    }
}

impl View for PhysicalSimpleAgg {
    type V = PhysicalView;

    open spec fn view(&self) -> PhysicalView {
        self.model()
    }
}

impl Clone for PhysicalSimpleAgg {
    fn clone(&self) -> (copy: PhysicalSimpleAgg)
        ensures
            copy@ == self@,
    {
        PhysicalSimpleAgg {
            agg_calls: clone_agg_calls(&self.agg_calls),
            child: Box::new(self.child.duplicate()),
        }
    }
}

/// The physical plan of an aggregation by group keys, with a hash table.
#[derive(Debug, PartialEq)]
pub struct PhysicalHashAgg {
    pub agg_calls: Vec<BoundAggCall>,
    pub group_keys: Vec<BoundExpr>,
    pub child: Box<PhysicalPlan>,
}

impl PhysicalHashAgg {
    pub open spec fn model(&self) -> PhysicalView
        decreases self,
    {
        PhysicalView::HashAgg {
            agg_calls: agg_calls_view(self.agg_calls@),
            group_keys: exprs_view(self.group_keys@),
            child: Box::new(self.child.model()),
        }
    }
}

impl View for PhysicalHashAgg {
    type V = PhysicalView;

    open spec fn view(&self) -> PhysicalView {
        self.model()
    }
}

impl Clone for PhysicalHashAgg {
    fn clone(&self) -> (copy: PhysicalHashAgg)
        ensures
            copy@ == self@,
    {
        PhysicalHashAgg {
            agg_calls: clone_agg_calls(&self.agg_calls),
            group_keys: clone_exprs(&self.group_keys),
            child: Box::new(self.child.duplicate()),
        }
    }
}

impl PhysicalPlaner {
    /// Lowers an aggregation: without group keys to the simple aggregation,
    /// with group keys to the hash aggregation.
    pub fn plan_aggregate(&self, plan: &LogicalAggregate) -> (result: Result<
        PhysicalPlan,
        PhysicalPlanError,
    >)
        ensures
            lowered_view(result) == Ok::<_, PhysicalPlanError>(lowered(plan@)),
            plan.group_keys.len() == 0 ==> result is Ok && result->Ok_0 is PhysicalSimpleAgg,
            plan.group_keys.len() > 0 ==> result is Ok && result->Ok_0 is PhysicalHashAgg,
        decreases plan,
    {
        let child = match self.plan_inner(&plan.child) {
            Ok(child) => child,
            Err(error) => {
                return Err(error);
            },
        };
        if plan.group_keys.len() == 0 {
            Ok(
                PhysicalPlan::PhysicalSimpleAgg(
                    PhysicalSimpleAgg {
                        agg_calls: clone_agg_calls(&plan.agg_calls),
                        child: Box::new(child),
                    },
                ),
            )
        } else {
            Ok(
                PhysicalPlan::PhysicalHashAgg(
                    PhysicalHashAgg {
                        agg_calls: clone_agg_calls(&plan.agg_calls),
                        group_keys: clone_exprs(&plan.group_keys),
                        child: Box::new(child),
                    },
                ),
            )
        }
    }
}

} // verus!
