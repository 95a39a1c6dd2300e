//! Aggregate calls.

use vstd::prelude::*;
use crate::binder::expression::exprs_view;
use crate::binder::expression::lemma_agg_call_view;
use crate::binder::expression::BinaryOperator;
use crate::binder::expression::BoundBinaryOp;
use crate::binder::expression::BoundExpr;
use crate::binder::expression::BoundInputRef;
use crate::binder::expression::BoundTypeCast;
use crate::binder::expression::ExprView;
use crate::float64::float64_bits;
use crate::float64::float64_bits_from_i32;
use crate::types::DataType;
use crate::types::DataTypeKind;
use crate::types::DataValue;
use crate::types::DataValueView;

verus! {

/// The aggregates that a plan can hold. The two differentially private ones
/// carry their privacy parameter, a 64-bit floating-point number held by its
/// IEEE 754 bit pattern.
#[derive(Clone, Copy, Debug, PartialEq, Eq, Structural)]
pub enum AggKind {
    RowCount,
    Max,
    Min,
    Sum,
    Count,
    DPCount(u64),
    DPSum(u64),
}

impl AggKind {
    /// The name under which a query calls the aggregate. Both counts go by
    /// one name.
    pub open spec fn name_of(self) -> Seq<char> {
        match self {
            AggKind::RowCount | AggKind::Count => "count"@,
            AggKind::Max => "max"@,
            AggKind::Min => "min"@,
            AggKind::Sum => "sum"@,
            AggKind::DPCount(_) => "dp_count"@,
            AggKind::DPSum(_) => "dp_sum"@,
        }
    }

    /// The name under which a query calls the aggregate.
    pub fn name(&self) -> (name: &'static str)
        ensures
            name@ == self.name_of(),
    {
        match self {
            AggKind::RowCount | AggKind::Count => "count",
            AggKind::Max => "max",
            AggKind::Min => "min",
            AggKind::Sum => "sum",
            AggKind::DPCount(_) => "dp_count",
            AggKind::DPSum(_) => "dp_sum",
        }
    }
}

/// One aggregate call: its kind, its arguments, and the type of its result.
#[derive(Debug, PartialEq)]
pub struct BoundAggCall {
    pub kind: AggKind,
    pub args: Vec<BoundExpr>,
    pub return_type: DataType,
}

/// The mathematical value of a [`BoundAggCall`].
pub struct AggCallView {
    pub kind: AggKind,
    pub args: Seq<ExprView>,
    pub return_type: DataType,
}

impl View for BoundAggCall {
    type V = AggCallView;

    open spec fn view(&self) -> AggCallView {
        AggCallView { kind: self.kind, args: exprs_view(self.args@), return_type: self.return_type }
    }
}

/// The views of a sequence of aggregate calls, one for one.
pub open spec fn agg_calls_view(calls: Seq<BoundAggCall>) -> Seq<AggCallView> {
    calls.map_values(|c: BoundAggCall| c@)
}

/// A copy of a list of aggregate calls with the same value.
pub fn clone_agg_calls(calls: &Vec<BoundAggCall>) -> (copy: Vec<BoundAggCall>)
    ensures
        agg_calls_view(copy@) == agg_calls_view(calls@),
{
    let copy = calls.clone();
    assert(agg_calls_view(copy@) =~= agg_calls_view(calls@));
    copy
}

/// One argument of a call as it stands in the query: an expression, already
/// bound, or one of the two forms of `*`.
#[derive(Debug, PartialEq)]
pub enum FunctionArgExpr {
    Expr(BoundExpr),
    QualifiedWildcard(String),
    Wildcard,
}

/// An argument, with the name that it was passed under where it had one.
#[derive(Debug, PartialEq)]
pub enum FunctionArg {
    Named { name: String, arg: FunctionArgExpr },
    Unnamed(FunctionArgExpr),
}

/// The mathematical value of a [`FunctionArgExpr`].
pub enum FunctionArgExprView {
    Expr(ExprView),
    QualifiedWildcard(Seq<char>),
    Wildcard,
}

impl View for FunctionArgExpr {
    type V = FunctionArgExprView;

    open spec fn view(&self) -> FunctionArgExprView {
        match self {
            FunctionArgExpr::Expr(expr) => FunctionArgExprView::Expr(expr@),
            FunctionArgExpr::QualifiedWildcard(table) => FunctionArgExprView::QualifiedWildcard(
                table@,
            ),
            FunctionArgExpr::Wildcard => FunctionArgExprView::Wildcard,
        }
    }
}

/// The mathematical value of a [`FunctionArg`].
pub struct FunctionArgView {
    pub name: Option<Seq<char>>,
    pub arg: FunctionArgExprView,
}

impl View for FunctionArg {
    type V = FunctionArgView;

    open spec fn view(&self) -> FunctionArgView {
        match self {
            FunctionArg::Named { name, arg } => FunctionArgView { name: Some(name@), arg: arg@ },
            FunctionArg::Unnamed(arg) => FunctionArgView { name: None, arg: arg@ },
        }
    }
}

/// A call of a function by name.
#[derive(Debug, PartialEq)]
pub struct Function {
    pub name: String,
    pub args: Vec<FunctionArg>,
}

/// The mathematical value of a [`Function`].
pub struct FunctionView {
    pub name: Seq<char>,
    pub args: Seq<FunctionArgView>,
}

impl View for Function {
    type V = FunctionView;

    open spec fn view(&self) -> FunctionView {
        FunctionView { name: self.name@, args: self.args@.map_values(|a: FunctionArg| a@) }
    }
}

/// Why a call could not be bound.
#[derive(Debug, PartialEq)]
pub enum BindError {
    /// The call names an aggregate, but its arguments do not fit it.
    InvalidExpression(String),
    /// The call names no aggregate.
    UnsupportedFunction(String),
}

/// The mathematical value of a [`BindError`].
pub enum BindErrorView {
    InvalidExpression(Seq<char>),
    UnsupportedFunction(Seq<char>),
}

impl View for BindError {
    type V = BindErrorView;

    open spec fn view(&self) -> BindErrorView {
        match self {
            BindError::InvalidExpression(m) => BindErrorView::InvalidExpression(m@),
            BindError::UnsupportedFunction(n) => BindErrorView::UnsupportedFunction(n@),
        }
    }
}

/// The view of the outcome of binding.
pub open spec fn bound_view(result: Result<BoundExpr, BindError>) -> Result<
    ExprView,
    BindErrorView,
> {
    match result {
        Ok(expr) => Ok(expr@),
        Err(error) => Err(error@),
    }
}

/// How many of the first `n` arguments, counted from the first, are
/// expressions without a break.
pub open spec fn leading_exprs(args: Seq<FunctionArgView>, n: nat) -> nat
    decreases n,
{
    if n == 0 {
        0
    } else {
        let before = leading_exprs(args, (n - 1) as nat);
        if before == n - 1 && args[n - 1].arg is Expr {
            n
        } else {
            before
        }
    }
}

/// The arguments that a call hands to its aggregate: all of them where all
/// are expressions; none where the first that is no expression is `*`; and
/// the call is refused where that one is a qualified `*`.
pub open spec fn bound_args(args: Seq<FunctionArgView>) -> Option<Seq<ExprView>> {
    let stop = leading_exprs(args, args.len());
    if stop == args.len() {
        Some(Seq::new(args.len(), |i: int| args[i].arg->Expr_0))
    } else if args[stop as int].arg is Wildcard {
        Some(Seq::empty())
    } else {
        None
    }
}

/// What a call with a qualified `*` is told.
pub open spec fn qualified_wildcard_message() -> Seq<char> {
    "Unsupported aggregate argument: qualified wildcard"@
}

/// What a plain aggregate or an average without a typed first argument is told.
pub open spec fn missing_argument_message() -> Seq<char> {
    "aggregate usage: function(col), with a typed column"@
}

/// What a differentially private count without arguments is told.
pub open spec fn dp_count_wildcard_message() -> Seq<char> {
    "Unsupported dp_count(*), please use dp_count(1, epsilon)"@
}

/// What a differentially private count of another shape is told.
pub open spec fn dp_count_usage_message() -> Seq<char> {
    "dp_count usage: dp_count(col, epsilon)"@
}

/// What a differentially private sum of another shape is told.
pub open spec fn dp_sum_usage_message() -> Seq<char> {
    "dp_sum usage: dp_sum(col, epsilon)"@
}

/// The type of every count: a 32-bit integer that is never null.
pub open spec fn count_type() -> DataType {
    DataType { kind: DataTypeKind::Int(None), nullable: false }
}

/// The type of every differentially private aggregate: a float that is never
/// null.
pub open spec fn noisy_type() -> DataType {
    DataType { kind: DataTypeKind::Float(None), nullable: false }
}

/// The privacy parameter that a literal gives: an integer literal gives the
/// number equal to it, a floating-point literal itself, anything else none.
pub open spec fn epsilon_of(expr: ExprView) -> Option<u64> {
    match expr {
        ExprView::Constant(DataValueView::Int32(x)) => Some(float64_bits(x as int) as u64),
        ExprView::Constant(DataValueView::Float64(bits)) => Some(bits),
        _ => None,
    }
}

/// A plain aggregate over its arguments: it yields what its first argument
/// yields, and is refused without a first argument that has a type.
pub open spec fn plain_aggregate(kind: AggKind, args: Seq<ExprView>) -> Result<
    ExprView,
    BindErrorView,
> {
    if args.len() == 0 || args[0].return_type() is None {
        Err(BindErrorView::InvalidExpression(missing_argument_message()))
    } else {
        Ok(ExprView::AggCall(AggCallView { kind, args, return_type: args[0].return_type()->0 }))
    }
}

/// The average, written as the sum divided by the count cast to the
/// argument's kind.
pub open spec fn average(args: Seq<ExprView>) -> Result<ExprView, BindErrorView> {
    if args.len() == 0 || args[0].return_type() is None {
        Err(BindErrorView::InvalidExpression(missing_argument_message()))
    } else {
        let return_type = args[0].return_type()->0;
        Ok(
            ExprView::BinaryOp {
                op: BinaryOperator::Divide,
                left: Box::new(
                    ExprView::AggCall(AggCallView { kind: AggKind::Sum, args, return_type }),
                ),
                right: Box::new(
                    ExprView::TypeCast {
                        ty: return_type.kind,
                        expr: Box::new(
                            ExprView::AggCall(
                                AggCallView {
                                    kind: AggKind::Count,
                                    args,
                                    return_type: count_type(),
                                },
                            ),
                        ),
                    },
                ),
                return_type: Some(return_type),
            },
        )
    }
}

/// The count: of rows where it has no argument, anchored on the first column
/// of the input; of its arguments otherwise.
pub open spec fn counting(args: Seq<ExprView>) -> ExprView {
    if args.len() == 0 {
        ExprView::AggCall(
            AggCallView {
                kind: AggKind::RowCount,
                args: seq![ExprView::InputRef { index: 0, return_type: count_type() }],
                return_type: count_type(),
            },
        )
    } else {
        ExprView::AggCall(AggCallView { kind: AggKind::Count, args, return_type: count_type() })
    }
}

/// A differentially private aggregate over a column and a literal privacy
/// parameter, which leaves the argument list.
pub open spec fn noisy_aggregate(count: bool, args: Seq<ExprView>) -> Result<
    ExprView,
    BindErrorView,
> {
    let usage = if count {
        dp_count_usage_message()
    } else {
        dp_sum_usage_message()
    };
    if count && args.len() == 0 {
        Err(BindErrorView::InvalidExpression(dp_count_wildcard_message()))
    } else if args.len() != 2 {
        Err(BindErrorView::InvalidExpression(usage))
    } else {
        match epsilon_of(args[1]) {
            Some(epsilon) => Ok(
                ExprView::AggCall(
                    AggCallView {
                        kind: if count {
                            AggKind::DPCount(epsilon)
                        } else {
                            AggKind::DPSum(epsilon)
                        },
                        args: seq![args[0]],
                        return_type: noisy_type(),
                    },
                ),
            ),
            None => Err(BindErrorView::InvalidExpression(usage)),
        }
    }
}

/// The expression that a call of the aggregate `name`, in lower case, with
/// bound arguments `args` stands for, or why it stands for none.
pub open spec fn aggregate_of(name: Seq<char>, args: Seq<ExprView>) -> Result<
    ExprView,
    BindErrorView,
> {
    if name == "avg"@ {
        average(args)
    } else if name == "count"@ {
        Ok(counting(args))
    } else if name == "dp_count"@ {
        noisy_aggregate(true, args)
    } else if name == "dp_sum"@ {
        noisy_aggregate(false, args)
    } else if name == "max"@ {
        plain_aggregate(AggKind::Max, args)
    } else if name == "min"@ {
        plain_aggregate(AggKind::Min, args)
    } else if name == "sum"@ {
        plain_aggregate(AggKind::Sum, args)
    } else {
        Err(BindErrorView::UnsupportedFunction(name))
    }
}

/// A call under the name of a kind is bound as an aggregate of that kind:
/// as a count under the name of the counts, as a differentially private
/// aggregate under the names of those, and as the plain aggregate of the
/// kind itself otherwise.
pub proof fn lemma_names_bind_to_their_kinds(kind: AggKind, args: Seq<ExprView>)
    ensures
        aggregate_of(kind.name_of(), args) == match kind {
            AggKind::RowCount | AggKind::Count => Ok(counting(args)),
            AggKind::DPCount(_) => noisy_aggregate(true, args),
            AggKind::DPSum(_) => noisy_aggregate(false, args),
            _ => plain_aggregate(kind, args),
        },
{
    reveal_strlit("avg");
    reveal_strlit("count");
    reveal_strlit("dp_count");
    reveal_strlit("dp_sum");
    reveal_strlit("max");
    reveal_strlit("min");
    reveal_strlit("sum");
    assert("count"@[0] != "avg"@[0]);
    assert("dp_count"@.len() != "avg"@.len() && "dp_count"@.len() != "count"@.len());
    assert("dp_sum"@.len() != "avg"@.len() && "dp_sum"@.len() != "count"@.len() && "dp_sum"@.len()
        != "dp_count"@.len());
    assert("max"@[0] != "avg"@[0] && "max"@.len() != "count"@.len() && "max"@.len()
        != "dp_count"@.len() && "max"@.len() != "dp_sum"@.len());
    assert("min"@[1] != "max"@[1] && "min"@[0] != "avg"@[0] && "min"@.len() != "count"@.len());
    assert("sum"@[0] != "avg"@[0] && "sum"@[0] != "max"@[0] && "sum"@.len() != "count"@.len());
}

/// What a call stands for, from its name as written and its arguments as
/// written.
pub open spec fn function_bound(func: FunctionView) -> Result<ExprView, BindErrorView> {
    match bound_args(func.args) {
        Some(args) => aggregate_of(lowercase(func.name), args),
        None => Err(BindErrorView::InvalidExpression(qualified_wildcard_message())),
    }
}

/// The lower-case form of a string.
pub uninterp spec fn lowercase(s: Seq<char>) -> Seq<char>;

/// `str::to_lowercase` of the standard library. Trusted: the result is the
/// lower-case form of the argument, which depends on the argument alone.
#[verifier::external_body]
fn to_lowercase(s: &String) -> (lower: String)
    ensures
        lower@ == lowercase(s@),
{
    s.to_lowercase()
}

/// Whether `name` reads as `literal`.
fn is_name(name: &String, literal: &str) -> (same: bool)
    ensures
        same == (name@ == literal@),
{
    let literal = literal.to_string();
    *name == literal
}

fn invalid_expression(message: &str) -> (error: BindError)
    ensures
        error@ == BindErrorView::InvalidExpression(message@),
{
    BindError::InvalidExpression(message.to_string())
}

/// Once the leading run of expressions has ended, it stays ended.
proof fn lemma_leading_exprs_stops(args: Seq<FunctionArgView>, stop: nat, n: nat)
    requires
        stop < n <= args.len(),
        leading_exprs(args, stop) == stop,
        !(args[stop as int].arg is Expr),
    ensures
        leading_exprs(args, n) == stop,
    decreases n,
{
    if n > stop + 1 {
        lemma_leading_exprs_stops(args, stop, (n - 1) as nat);
    }
}

/// The binder of function calls.
#[derive(Debug, Default)]
pub struct Binder;

impl Binder {
    /// Binds a call of an aggregate: the arguments up to a `*`, under the
    /// lower-case form of the name.
    pub fn bind_function(&mut self, func: &Function) -> (result: Result<BoundExpr, BindError>)
        ensures
            bound_view(result) == function_bound(func@),
    {
        let ghost given = func@.args;
        let mut args: Vec<BoundExpr> = Vec::new();
        let mut i: usize = 0;
        while i < func.args.len()
            invariant
                i <= func.args.len(),
                given == func@.args,
                leading_exprs(given, i as nat) == i,
                args.len() == i,
                forall|j: int| 0 <= j < i ==> args[j]@ == (#[trigger] given[j]).arg->Expr_0,
            decreases func.args.len() - i,
        {
            let arg = match &func.args[i] {
                FunctionArg::Named { arg, .. } => arg,
                FunctionArg::Unnamed(arg) => arg,
            };
            match arg {
                FunctionArgExpr::Expr(expr) => {
                    args.push(expr.clone());
                },
                FunctionArgExpr::Wildcard => {
                    proof {
                        lemma_leading_exprs_stops(given, i as nat, func.args.len() as nat);
                    }
                    let lower = to_lowercase(&func.name);
                    return bind_aggregate(&lower, Vec::new());
                },
                FunctionArgExpr::QualifiedWildcard(_) => {
                    proof {
                        lemma_leading_exprs_stops(given, i as nat, func.args.len() as nat);
                    }
                    return Err(
                        invalid_expression("Unsupported aggregate argument: qualified wildcard"),
                    );
                },
            }
            i += 1;
        }
        assert(exprs_view(args@) =~= bound_args(given)->0);
        let lower = to_lowercase(&func.name);
        bind_aggregate(&lower, args)
    }
}

/// Builds the aggregate named `name`, which is in lower case, over `args`.
pub fn bind_aggregate(name: &String, args: Vec<BoundExpr>) -> (result: Result<
    BoundExpr,
    BindError,
>)
    ensures
        bound_view(result) == aggregate_of(name@, exprs_view(args@)),
{
    if is_name(name, "avg") {
        bind_average(args)
    } else if is_name(name, "count") {
        Ok(bind_count(args))
    } else if is_name(name, "dp_count") {
        bind_noisy(true, args)
    } else if is_name(name, "dp_sum") {
        bind_noisy(false, args)
    } else if is_name(name, "max") {
        bind_plain(AggKind::Max, args)
    } else if is_name(name, "min") {
        bind_plain(AggKind::Min, args)
    } else if is_name(name, "sum") {
        bind_plain(AggKind::Sum, args)
    } else {
        Err(BindError::UnsupportedFunction(name.clone()))
    }
}

fn agg_call(kind: AggKind, args: Vec<BoundExpr>, return_type: DataType) -> (expr: BoundExpr)
    ensures
        expr@ == ExprView::AggCall(AggCallView { kind, args: exprs_view(args@), return_type }),
{
    let call = BoundAggCall { kind, args, return_type };
    proof {
        lemma_agg_call_view(call);
    }
    BoundExpr::AggCall(call)
}

fn bind_plain(kind: AggKind, args: Vec<BoundExpr>) -> (result: Result<BoundExpr, BindError>)
    ensures
        bound_view(result) == plain_aggregate(kind, exprs_view(args@)),
{
    if args.len() == 0 {
        return Err(invalid_expression("aggregate usage: function(col), with a typed column"));
    }
    match args[0].return_type() {
        Some(return_type) => Ok(agg_call(kind, args, return_type)),
        None => Err(invalid_expression("aggregate usage: function(col), with a typed column")),
    }
}

fn bind_average(args: Vec<BoundExpr>) -> (result: Result<BoundExpr, BindError>)
    ensures
        bound_view(result) == average(exprs_view(args@)),
{
    if args.len() == 0 {
        return Err(invalid_expression("aggregate usage: function(col), with a typed column"));
    }
    match args[0].return_type() {
        Some(return_type) => {
            let sum_args = args.clone();
            assert(exprs_view(sum_args@) =~= exprs_view(args@));
            let sum = agg_call(AggKind::Sum, sum_args, return_type);
            let count = agg_call(
                AggKind::Count,
                args,
                DataType::new(DataTypeKind::Int(None), false),
            );
            let cast = BoundExpr::TypeCast(
                BoundTypeCast { ty: return_type.kind(), expr: Box::new(count) },
            );
            assert(cast@ == ExprView::TypeCast { ty: return_type.kind, expr: Box::new(count@) });
            let quotient = BoundExpr::BinaryOp(
                BoundBinaryOp {
                    op: BinaryOperator::Divide,
                    left_expr: Box::new(sum),
                    right_expr: Box::new(cast),
                    return_type: Some(return_type),
                },
            );
            assert(quotient@ == ExprView::BinaryOp {
                op: BinaryOperator::Divide,
                left: Box::new(sum@),
                right: Box::new(cast@),
                return_type: Some(return_type),
            });
            Ok(quotient)
        },
        None => Err(invalid_expression("aggregate usage: function(col), with a typed column")),
    }
}

fn bind_count(args: Vec<BoundExpr>) -> (expr: BoundExpr)
    ensures
        expr@ == counting(exprs_view(args@)),
{
    let int_type = DataType::new(DataTypeKind::Int(None), false);
    if args.len() == 0 {
        let mut anchor: Vec<BoundExpr> = Vec::new();
        anchor.push(BoundExpr::InputRef(BoundInputRef { index: 0, return_type: int_type }));
        assert(exprs_view(anchor@) =~= seq![
            ExprView::InputRef { index: 0, return_type: count_type() },
        ]);
        agg_call(AggKind::RowCount, anchor, int_type)
    } else {
        agg_call(AggKind::Count, args, int_type)
    }
}

/// The privacy parameter that a literal gives.
fn epsilon(expr: &BoundExpr) -> (epsilon: Option<u64>)
    ensures
        epsilon == epsilon_of(expr@),
{
    match expr {
        BoundExpr::Constant(DataValue::Int32(x)) => Some(float64_bits_from_i32(*x)),
        BoundExpr::Constant(DataValue::Float64(bits)) => Some(*bits),
        _ => None,
    }
}

fn bind_noisy(count: bool, args: Vec<BoundExpr>) -> (result: Result<BoundExpr, BindError>)
    ensures
        bound_view(result) == noisy_aggregate(count, exprs_view(args@)),
{
    let mut args = args;
    let usage = if count {
        "dp_count usage: dp_count(col, epsilon)"
    } else {
        "dp_sum usage: dp_sum(col, epsilon)"
    };
    if count && args.len() == 0 {
        return Err(invalid_expression("Unsupported dp_count(*), please use dp_count(1, epsilon)"));
    }
    if args.len() != 2 {
        return Err(invalid_expression(usage));
    }
    let ghost given = exprs_view(args@);
    let literal = args.pop().unwrap();
    match epsilon(&literal) {
        Some(epsilon) => {
            let kind = if count {
                AggKind::DPCount(epsilon)
            } else {
                AggKind::DPSum(epsilon)
            };
            assert(exprs_view(args@) =~= seq![given[0]]);
            Ok(agg_call(kind, args, DataType::new(DataTypeKind::Float(None), false)))
        },
        None => Err(invalid_expression(usage)),
    }
}

} // verus!
