//! Query-plan compilation: from a bound statement to a logical plan tree, through
//! rewriting and column-reference resolution, down to a physical plan tree.
//!
//! - [`binder`] holds what binding hands over: typed expressions, aggregate
//!   calls and statements.
//! - [`logical_planner`] builds the logical plan of a statement, and takes the
//!   aggregate calls out of a select list.
//! - [`logical_optimizer`] holds the traversal that rewrite rules share.
//! - [`physical_planner`] resolves references to columns by name into
//!   positions, and lowers the resolved plan to physical operators.
//!
//! Every executable function carries a contract over the mathematical view of
//! its arguments, and the laws that tie the passes together are proved
//! alongside.

pub mod binder;
pub mod catalog;
pub mod float64;
pub mod logical_optimizer;
pub mod logical_planner;
pub mod physical_planner;
pub mod types;
