//! What binding hands to the planner: typed expressions and statements.

pub mod agg_call;
pub mod expression;
pub mod statement;

pub use agg_call::AggKind;
pub use agg_call::BindError;
pub use agg_call::Binder;
pub use agg_call::BoundAggCall;
pub use agg_call::Function;
pub use agg_call::FunctionArg;
pub use agg_call::FunctionArgExpr;
pub use expression::BinaryOperator;
pub use expression::BoundAlias;
pub use expression::BoundBinaryOp;
pub use expression::BoundColumnRef;
pub use expression::BoundExpr;
pub use expression::BoundInputRef;
pub use expression::BoundIsNull;
pub use expression::BoundTypeCast;
pub use expression::BoundUnaryOp;
pub use expression::UnaryOperator;
pub use statement::BoundCopy;
pub use statement::BoundCreateTable;
pub use statement::BoundDelete;
pub use statement::BoundDrop;
pub use statement::BoundInsert;
pub use statement::BoundJoinConstraint;
pub use statement::BoundJoinOperator;
pub use statement::BoundOrderBy;
pub use statement::BoundSelect;
pub use statement::BoundStatement;
pub use statement::BoundTableRef;
pub use statement::BoundedSingleJoinTableRef;
pub use statement::CopyTarget;
pub use statement::FileFormat;
pub use statement::Object;
