//! Bound expressions and their mathematical view.

use vstd::prelude::*;
use crate::binder::agg_call::AggCallView;
use crate::binder::agg_call::BoundAggCall;
use crate::catalog::ColumnDesc;
use crate::catalog::ColumnDescView;
use crate::catalog::ColumnRefId;
use crate::types::DataType;
use crate::types::DataTypeKind;
use crate::types::DataValue;
use crate::types::DataValueView;

verus! {

/// The operators of two operands.
#[derive(Clone, Copy, Debug, PartialEq, Eq, Structural)]
pub enum BinaryOperator {
    Plus,
    Minus,
    Multiply,
    Divide,
    Modulo,
    Gt,
    Lt,
    GtEq,
    LtEq,
    Eq,
    NotEq,
    And,
    Or,
}

/// The operators of one operand.
#[derive(Clone, Copy, Debug, PartialEq, Eq, Structural)]
pub enum UnaryOperator {
    Plus,
    Minus,
    Not,
}

/// A reference to a column by its place in the catalog.
#[derive(Debug, PartialEq)]
pub struct BoundColumnRef {
    pub column_ref_id: ColumnRefId,
    pub is_primary_key: bool,
    pub desc: ColumnDesc,
}

/// A reference to a column by its position in the row that an operator is given.
#[derive(Debug, PartialEq)]
pub struct BoundInputRef {
    pub index: usize,
    pub return_type: DataType,
}

/// An operator over two expressions.
#[derive(Debug, PartialEq)]
pub struct BoundBinaryOp {
    pub op: BinaryOperator,
    pub left_expr: Box<BoundExpr>,
    pub right_expr: Box<BoundExpr>,
    pub return_type: Option<DataType>,
}

/// An operator over one expression.
#[derive(Debug, PartialEq)]
pub struct BoundUnaryOp {
    pub op: UnaryOperator,
    pub expr: Box<BoundExpr>,
    pub return_type: Option<DataType>,
}

/// A cast of an expression to a kind.
#[derive(Debug, PartialEq)]
pub struct BoundTypeCast {
    pub ty: DataTypeKind,
    pub expr: Box<BoundExpr>,
}

/// The check whether an expression is null.
#[derive(Debug, PartialEq)]
pub struct BoundIsNull {
    pub expr: Box<BoundExpr>,
}

/// An expression under a name that the query gave it.
#[derive(Debug, PartialEq)]
pub struct BoundAlias {
    pub alias: String,
    pub expr: Box<BoundExpr>,
}

/// A typed scalar or aggregate expression.
#[derive(Debug, PartialEq)]
pub enum BoundExpr {
    Constant(DataValue),
    ColumnRef(BoundColumnRef),
    InputRef(BoundInputRef),
    BinaryOp(BoundBinaryOp),
    UnaryOp(BoundUnaryOp),
    TypeCast(BoundTypeCast),
    AggCall(BoundAggCall),
    IsNull(BoundIsNull),
    Alias(BoundAlias),
}

/// The mathematical value of a [`BoundExpr`].
#[allow(inconsistent_fields)]
pub enum ExprView {
    Constant(DataValueView),
    ColumnRef { column_ref_id: ColumnRefId, is_primary_key: bool, desc: ColumnDescView },
    InputRef { index: nat, return_type: DataType },
    BinaryOp {
        op: BinaryOperator,
        left: Box<ExprView>,
        right: Box<ExprView>,
        return_type: Option<DataType>,
    },
    UnaryOp { op: UnaryOperator, expr: Box<ExprView>, return_type: Option<DataType> },
    TypeCast { ty: DataTypeKind, expr: Box<ExprView> },
    AggCall(AggCallView),
    IsNull { expr: Box<ExprView> },
    Alias { alias: Seq<char>, expr: Box<ExprView> },
}

impl BoundExpr {
    /// The value of an expression, node by node.
    pub open spec fn model(&self) -> ExprView
        decreases self,
    {
        match self {
            BoundExpr::Constant(v) => ExprView::Constant(v@),
            BoundExpr::ColumnRef(c) => ExprView::ColumnRef {
                column_ref_id: c.column_ref_id,
                is_primary_key: c.is_primary_key,
                desc: c.desc@,
            },
            BoundExpr::InputRef(r) => ExprView::InputRef {
                index: r.index as nat,
                return_type: r.return_type,
            },
            BoundExpr::BinaryOp(b) => ExprView::BinaryOp {
                op: b.op,
                left: Box::new(b.left_expr.model()),
                right: Box::new(b.right_expr.model()),
                return_type: b.return_type,
            },
            BoundExpr::UnaryOp(u) => ExprView::UnaryOp {
                op: u.op,
                expr: Box::new(u.expr.model()),
                return_type: u.return_type,
            },
            BoundExpr::TypeCast(t) => ExprView::TypeCast { ty: t.ty, expr: Box::new(t.expr.model()) },
            BoundExpr::AggCall(a) => ExprView::AggCall(
                AggCallView {
                    kind: a.kind,
                    args: Seq::new(
                        a.args.len() as nat,
                        |i: int|
                            if 0 <= i < a.args.len() {
                                a.args[i].model()
                            } else {
                                arbitrary()
                            },
                    ),
                    return_type: a.return_type,
                },
            ),
            BoundExpr::IsNull(n) => ExprView::IsNull { expr: Box::new(n.expr.model()) },
            BoundExpr::Alias(a) => ExprView::Alias { alias: a.alias@, expr: Box::new(a.expr.model()) },
        }
    }
}

impl View for BoundExpr {
    type V = ExprView;

    open spec fn view(&self) -> ExprView {
        self.model()
    }
}

/// The views of a sequence of expressions, one for one.
pub open spec fn exprs_view(exprs: Seq<BoundExpr>) -> Seq<ExprView> {
    exprs.map_values(|e: BoundExpr| e@)
}

/// The views of the rows of a table of expressions.
pub open spec fn rows_view(rows: Seq<Vec<BoundExpr>>) -> Seq<Seq<ExprView>> {
    rows.map_values(|row: Vec<BoundExpr>| exprs_view(row@))
}

/// The view of an aggregate call that stands as an expression is the view of
/// the call.
pub proof fn lemma_agg_call_view(call: BoundAggCall)
    ensures
        BoundExpr::AggCall(call)@ == ExprView::AggCall(call@),
{
    assert(BoundExpr::AggCall(call)@->AggCall_0.args =~= call@.args);
}

impl ExprView {
    /// The type of the value that an expression yields, where it has one.
    pub open spec fn return_type(self) -> Option<DataType>
        decreases self,
    {
        match self {
            ExprView::Constant(v) => v.data_type(),
            ExprView::ColumnRef { desc, .. } => Some(desc.datatype),
            ExprView::InputRef { return_type, .. } => Some(return_type),
            ExprView::BinaryOp { return_type, .. } => return_type,
            ExprView::UnaryOp { return_type, .. } => return_type,
            ExprView::TypeCast { ty, .. } => Some(DataType { kind: ty, nullable: true }),
            ExprView::AggCall(call) => Some(call.return_type),
            ExprView::IsNull { .. } => Some(
                DataType { kind: DataTypeKind::Boolean, nullable: false },
            ),
            ExprView::Alias { expr, .. } => expr.return_type(),
        }
    }
}

impl BoundExpr {
    /// The type of the value that the expression yields, where it has one.
    pub fn return_type(&self) -> (datatype: Option<DataType>)
        ensures
            datatype == self@.return_type(),
        decreases self,
    {
        match self {
            BoundExpr::Constant(v) => v.data_type(),
            BoundExpr::ColumnRef(c) => Some(c.desc.datatype()),
            BoundExpr::InputRef(r) => Some(r.return_type),
            BoundExpr::BinaryOp(b) => b.return_type,
            BoundExpr::UnaryOp(u) => u.return_type,
            BoundExpr::TypeCast(t) => Some(t.ty.nullable()),
            BoundExpr::AggCall(a) => Some(a.return_type),
            BoundExpr::IsNull(_) => Some(DataTypeKind::Boolean.not_null()),
            BoundExpr::Alias(a) => a.expr.return_type(),
        }
    }

    /// A copy with the same value.
    pub fn duplicate(&self) -> (copy: BoundExpr)
        ensures
            copy@ == self@,
        decreases self,
    {
        match self {
            BoundExpr::Constant(v) => BoundExpr::Constant(v.clone()),
            BoundExpr::ColumnRef(c) => BoundExpr::ColumnRef(
                BoundColumnRef {
                    column_ref_id: c.column_ref_id,
                    is_primary_key: c.is_primary_key,
                    desc: c.desc.clone(),
                },
            ),
            BoundExpr::InputRef(r) => BoundExpr::InputRef(
                BoundInputRef { index: r.index, return_type: r.return_type },
            ),
            BoundExpr::BinaryOp(b) => BoundExpr::BinaryOp(
                BoundBinaryOp {
                    op: b.op,
                    left_expr: Box::new(b.left_expr.duplicate()),
                    right_expr: Box::new(b.right_expr.duplicate()),
                    return_type: b.return_type,
                },
            ),
            BoundExpr::UnaryOp(u) => BoundExpr::UnaryOp(
                BoundUnaryOp {
                    op: u.op,
                    expr: Box::new(u.expr.duplicate()),
                    return_type: u.return_type,
                },
            ),
            BoundExpr::TypeCast(t) => BoundExpr::TypeCast(
                BoundTypeCast { ty: t.ty, expr: Box::new(t.expr.duplicate()) },
            ),
            BoundExpr::AggCall(a) => {
                let mut args: Vec<BoundExpr> = Vec::new();
                let mut i: usize = 0;
                while i < a.args.len()
                    invariant
                        i <= a.args.len(),
                        args.len() == i,
                        decreases_to!(self => a.args),
                        forall|j: int| 0 <= j < i ==> args[j]@ == a.args[j]@,
                    decreases a.args.len() - i,
                {
                    let arg = &a.args[i];
                    args.push(arg.duplicate());
                    i += 1;
                }
                let copy = BoundExpr::AggCall(
                    BoundAggCall { kind: a.kind, args, return_type: a.return_type },
                );
                assert(copy@->AggCall_0.args =~= self@->AggCall_0.args);
                copy
            },
            BoundExpr::IsNull(n) => BoundExpr::IsNull(
                BoundIsNull { expr: Box::new(n.expr.duplicate()) },
            ),
            BoundExpr::Alias(a) => BoundExpr::Alias(
                BoundAlias { alias: a.alias.clone(), expr: Box::new(a.expr.duplicate()) },
            ),
        }
    }

    /// Whether two expressions have the same value: the same nodes with the
    /// same fields, all the way down.
    pub fn equals(&self, other: &BoundExpr) -> (same: bool)
        ensures
            same == (self@ == other@),
        decreases self,
    {
        match (self, other) {
            (BoundExpr::Constant(a), BoundExpr::Constant(b)) => a.equals(b),
            (BoundExpr::ColumnRef(a), BoundExpr::ColumnRef(b)) => {
                a.column_ref_id == b.column_ref_id && a.is_primary_key == b.is_primary_key
                    && a.desc.equals(&b.desc)
            },
            (BoundExpr::InputRef(a), BoundExpr::InputRef(b)) => {
                a.index == b.index && a.return_type == b.return_type
            },
            (BoundExpr::BinaryOp(a), BoundExpr::BinaryOp(b)) => {
                a.op == b.op && same_type(&a.return_type, &b.return_type) && a.left_expr.equals(
                    &b.left_expr,
                ) && a.right_expr.equals(&b.right_expr)
            },
            (BoundExpr::UnaryOp(a), BoundExpr::UnaryOp(b)) => {
                a.op == b.op && same_type(&a.return_type, &b.return_type) && a.expr.equals(&b.expr)
            },
            (BoundExpr::TypeCast(a), BoundExpr::TypeCast(b)) => {
                a.ty == b.ty && a.expr.equals(&b.expr)
            },
            (BoundExpr::AggCall(a), BoundExpr::AggCall(b)) => {
                proof {
                    lemma_agg_call_view(*a);
                    lemma_agg_call_view(*b);
                }
                assert(a@.args.len() == a.args.len() && b@.args.len() == b.args.len());
                if !(a.kind == b.kind && a.return_type == b.return_type && a.args.len()
                    == b.args.len()) {
                    return false;
                }
                let mut i: usize = 0;
                while i < a.args.len()
                    invariant
                        i <= a.args.len(),
                        a.args.len() == b.args.len(),
                        a.kind == b.kind,
                        a.return_type == b.return_type,
                        self@ == ExprView::AggCall(a@),
                        other@ == ExprView::AggCall(b@),
                        decreases_to!(self => a.args),
                        forall|j: int| 0 <= j < i ==> a.args[j]@ == b.args[j]@,
                    decreases a.args.len() - i,
                {
                    let left = &a.args[i];
                    if !left.equals(&b.args[i]) {
                        assert(a@.args[i as int] != b@.args[i as int]);
                        return false;
                    }
                    i += 1;
                }
                assert(a@.args =~= b@.args);
                true
            },
            (BoundExpr::IsNull(a), BoundExpr::IsNull(b)) => a.expr.equals(&b.expr),
            (BoundExpr::Alias(a), BoundExpr::Alias(b)) => {
                a.alias == b.alias && a.expr.equals(&b.expr)
            },
            _ => false,
        }
    }
}

/// Whether two optional types are the same.
pub fn same_type(a: &Option<DataType>, b: &Option<DataType>) -> (same: bool)
    ensures
        same == (*a == *b),
{
    match (a, b) {
        (Some(x), Some(y)) => *x == *y,
        (None, None) => true,
        _ => false,
    }
}

impl Clone for BoundExpr {
    fn clone(&self) -> (copy: BoundExpr)
        ensures
            copy@ == self@,
    {
        self.duplicate()
    }
}

impl Clone for BoundAggCall {
    fn clone(&self) -> (copy: BoundAggCall)
        ensures
            copy@ == self@,
    {
        let args = self.args.clone();
        assert(exprs_view(args@) =~= exprs_view(self.args@));
        BoundAggCall { kind: self.kind, args, return_type: self.return_type }
    }
}

/// A copy of a list of expressions with the same value.
pub fn clone_exprs(exprs: &Vec<BoundExpr>) -> (copy: Vec<BoundExpr>)
    ensures
        exprs_view(copy@) == exprs_view(exprs@),
{
    let copy = exprs.clone();
    assert(exprs_view(copy@) =~= exprs_view(exprs@));
    copy
}

/// A copy of the rows of a table of expressions with the same value.
pub fn clone_rows(rows: &Vec<Vec<BoundExpr>>) -> (copy: Vec<Vec<BoundExpr>>)
    ensures
        rows_view(copy@) == rows_view(rows@),
{
    let mut copy: Vec<Vec<BoundExpr>> = Vec::new();
    let mut i: usize = 0;
    while i < rows.len()
        invariant
            i <= rows.len(),
            copy.len() == i,
            forall|j: int| 0 <= j < i ==> exprs_view(copy[j]@) == exprs_view(rows[j]@),
        decreases rows.len() - i,
    {
        copy.push(clone_exprs(&rows[i]));
        i += 1;
    }
    assert(rows_view(copy@) =~= rows_view(rows@));
    copy
}

} // verus!
