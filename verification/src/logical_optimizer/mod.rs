//! Rewriting of logical plans.

pub mod plan_rewriter;

pub use plan_rewriter::rewrite_plan;
pub use plan_rewriter::NoRewrite;
pub use plan_rewriter::PlanRewriter;
