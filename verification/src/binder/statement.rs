//! Bound statements.

use vstd::prelude::*;
use crate::binder::expression::exprs_view;
use crate::binder::expression::rows_view;
use crate::binder::expression::BoundExpr;
use crate::binder::expression::ExprView;
use crate::catalog::column_catalogs_view;
use crate::catalog::column_descs_view;
use crate::catalog::ColumnCatalog;
use crate::catalog::ColumnCatalogView;
use crate::catalog::ColumnDesc;
use crate::catalog::ColumnDescView;
use crate::catalog::ColumnId;
use crate::catalog::DatabaseId;
use crate::catalog::SchemaId;
use crate::catalog::TableRefId;
use crate::types::DataType;

verus! {

/// The condition of a join.
#[derive(Debug, PartialEq)]
pub enum BoundJoinConstraint {
    On(BoundExpr),
}

/// How two tables are joined, and on what condition.
#[derive(Debug, PartialEq)]
pub enum BoundJoinOperator {
    Inner(BoundJoinConstraint),
    LeftOuter(BoundJoinConstraint),
    RightOuter(BoundJoinConstraint),
}

/// The mathematical value of a [`BoundJoinOperator`].
pub enum JoinOperatorView {
    Inner(ExprView),
    LeftOuter(ExprView),
    RightOuter(ExprView),
}

impl JoinOperatorView {
    /// The condition of the join.
    pub open spec fn condition(self) -> ExprView {
        match self {
            JoinOperatorView::Inner(on) => on,
            JoinOperatorView::LeftOuter(on) => on,
            JoinOperatorView::RightOuter(on) => on,
        }
    }

    /// The same join on another condition.
    pub open spec fn with_condition(self, on: ExprView) -> JoinOperatorView {
        match self {
            JoinOperatorView::Inner(_) => JoinOperatorView::Inner(on),
            JoinOperatorView::LeftOuter(_) => JoinOperatorView::LeftOuter(on),
            JoinOperatorView::RightOuter(_) => JoinOperatorView::RightOuter(on),
        }
    }
}

impl View for BoundJoinOperator {
    type V = JoinOperatorView;

    open spec fn view(&self) -> JoinOperatorView {
        match self {
            BoundJoinOperator::Inner(BoundJoinConstraint::On(on)) => JoinOperatorView::Inner(on@),
            BoundJoinOperator::LeftOuter(BoundJoinConstraint::On(on)) => JoinOperatorView::LeftOuter(
                on@,
            ),
            BoundJoinOperator::RightOuter(BoundJoinConstraint::On(on)) => JoinOperatorView::RightOuter(
                on@,
            ),
        }
    }
}

impl Clone for BoundJoinOperator {
    fn clone(&self) -> (copy: BoundJoinOperator)
        ensures
            copy@ == self@,
    {
        match self {
            BoundJoinOperator::Inner(BoundJoinConstraint::On(on)) => BoundJoinOperator::Inner(
                BoundJoinConstraint::On(on.clone()),
            ),
            BoundJoinOperator::LeftOuter(BoundJoinConstraint::On(on)) => BoundJoinOperator::LeftOuter(
                BoundJoinConstraint::On(on.clone()),
            ),
            BoundJoinOperator::RightOuter(BoundJoinConstraint::On(on)) => {
                BoundJoinOperator::RightOuter(BoundJoinConstraint::On(on.clone()))
            },
        }
    }
}

/// One key of an ordering.
#[derive(Debug, PartialEq)]
pub struct BoundOrderBy {
    pub expr: BoundExpr,
    pub descending: bool,
}

/// The mathematical value of a [`BoundOrderBy`].
pub struct OrderByView {
    pub expr: ExprView,
    pub descending: bool,
}

impl View for BoundOrderBy {
    type V = OrderByView;

    open spec fn view(&self) -> OrderByView {
        OrderByView { expr: self.expr@, descending: self.descending }
    }
}

impl Clone for BoundOrderBy {
    fn clone(&self) -> (copy: BoundOrderBy)
        ensures
            copy@ == self@,
    {
        BoundOrderBy { expr: self.expr.clone(), descending: self.descending }
    }
}

/// The views of a sequence of ordering keys, one for one.
pub open spec fn order_bys_view(keys: Seq<BoundOrderBy>) -> Seq<OrderByView> {
    keys.map_values(|k: BoundOrderBy| k@)
}

/// A copy of the keys of an ordering with the same value.
pub fn clone_order_bys(keys: &Vec<BoundOrderBy>) -> (copy: Vec<BoundOrderBy>)
    ensures
        order_bys_view(copy@) == order_bys_view(keys@),
{
    let copy = keys.clone();
    assert(order_bys_view(copy@) =~= order_bys_view(keys@));
    copy
}

/// A table of the `from` clause: one table of the catalog with the columns
/// that the query reads, or a table joined with further ones, left to right.
#[derive(Debug, PartialEq)]
pub enum BoundTableRef {
    BaseTableRef {
        ref_id: TableRefId,
        table_name: String,
        column_ids: Vec<ColumnId>,
        column_descs: Vec<ColumnDesc>,
    },
    JoinTableRef { relation: Box<BoundTableRef>, join_tables: Vec<BoundedSingleJoinTableRef> },
}

/// One further table of a join, and how it is joined to what stands left of it.
#[derive(Debug, PartialEq)]
pub struct BoundedSingleJoinTableRef {
    pub table_ref: Box<BoundTableRef>,
    pub join_op: BoundJoinOperator,
}

/// The mathematical value of a [`BoundTableRef`].
pub enum TableRefView {
    Base {
        ref_id: TableRefId,
        table_name: Seq<char>,
        column_ids: Seq<ColumnId>,
        column_descs: Seq<ColumnDescView>,
    },
    Join { relation: Box<TableRefView>, join_tables: Seq<JoinedTableView> },
}

/// The mathematical value of a [`BoundedSingleJoinTableRef`].
pub struct JoinedTableView {
    pub table_ref: Box<TableRefView>,
    pub join_op: JoinOperatorView,
}

impl BoundTableRef {
    /// The value of a table reference, table by table.
    pub open spec fn model(&self) -> TableRefView
        decreases self,
    {
        match self {
            BoundTableRef::BaseTableRef {
                ref_id,
                table_name,
                column_ids,
                column_descs,
            } => TableRefView::Base {
                ref_id: *ref_id,
                table_name: table_name@,
                column_ids: column_ids@,
                column_descs: column_descs_view(column_descs@),
            },
            BoundTableRef::JoinTableRef { relation, join_tables } => TableRefView::Join {
                relation: Box::new(relation.model()),
                join_tables: Seq::new(
                    join_tables.len() as nat,
                    |i: int|
                        if 0 <= i < join_tables.len() {
                            JoinedTableView {
                                table_ref: Box::new(join_tables[i].table_ref.model()),
                                join_op: join_tables[i].join_op@,
                            }
                        } else {
                            arbitrary()
                        },
                ),
            },
        }
    }
}

impl View for BoundTableRef {
    type V = TableRefView;

    open spec fn view(&self) -> TableRefView {
        self.model()
    }
}

impl View for BoundedSingleJoinTableRef {
    type V = JoinedTableView;

    open spec fn view(&self) -> JoinedTableView {
        JoinedTableView { table_ref: Box::new(self.table_ref@), join_op: self.join_op@ }
    }
}

/// The views of a sequence of table references, one for one.
pub open spec fn table_refs_view(tables: Seq<BoundTableRef>) -> Seq<TableRefView> {
    tables.map_values(|t: BoundTableRef| t@)
}

/// The view of an expression that may be absent.
pub open spec fn clause_view(clause: Option<BoundExpr>) -> Option<ExprView> {
    match clause {
        Some(expr) => Some(expr@),
        None => None,
    }
}

/// A `select` statement.
#[derive(Debug, PartialEq)]
pub struct BoundSelect {
    pub select_list: Vec<BoundExpr>,
    pub from_table: Vec<BoundTableRef>,
    pub where_clause: Option<BoundExpr>,
    pub select_distinct: bool,
    pub group_by: Vec<BoundExpr>,
    pub orderby: Vec<BoundOrderBy>,
    pub limit: Option<BoundExpr>,
    pub offset: Option<BoundExpr>,
}

/// The mathematical value of a [`BoundSelect`].
pub struct SelectView {
    pub select_list: Seq<ExprView>,
    pub from_table: Seq<TableRefView>,
    pub where_clause: Option<ExprView>,
    pub select_distinct: bool,
    pub group_by: Seq<ExprView>,
    pub orderby: Seq<OrderByView>,
    pub limit: Option<ExprView>,
    pub offset: Option<ExprView>,
}

impl View for BoundSelect {
    type V = SelectView;

    open spec fn view(&self) -> SelectView {
        SelectView {
            select_list: exprs_view(self.select_list@),
            from_table: table_refs_view(self.from_table@),
            where_clause: clause_view(self.where_clause),
            select_distinct: self.select_distinct,
            group_by: exprs_view(self.group_by@),
            orderby: order_bys_view(self.orderby@),
            limit: clause_view(self.limit),
            offset: clause_view(self.offset),
        }
    }
}

/// An `insert` statement with the rows to insert.
#[derive(Debug, PartialEq)]
pub struct BoundInsert {
    pub table_ref_id: TableRefId,
    pub column_ids: Vec<ColumnId>,
    pub column_types: Vec<DataType>,
    pub values: Vec<Vec<BoundExpr>>,
}

/// The mathematical value of a [`BoundInsert`].
pub struct InsertView {
    pub table_ref_id: TableRefId,
    pub column_ids: Seq<ColumnId>,
    pub column_types: Seq<DataType>,
    pub values: Seq<Seq<ExprView>>,
}

impl View for BoundInsert {
    type V = InsertView;

    open spec fn view(&self) -> InsertView {
        InsertView {
            table_ref_id: self.table_ref_id,
            column_ids: self.column_ids@,
            column_types: self.column_types@,
            values: rows_view(self.values@),
        }
    }
}

/// A `create table` statement.
#[derive(Debug, PartialEq)]
pub struct BoundCreateTable {
    pub database_id: DatabaseId,
    pub schema_id: SchemaId,
    pub table_name: String,
    pub columns: Vec<ColumnCatalog>,
}

/// The mathematical value of a [`BoundCreateTable`].
pub struct CreateTableView {
    pub database_id: DatabaseId,
    pub schema_id: SchemaId,
    pub table_name: Seq<char>,
    pub columns: Seq<ColumnCatalogView>,
}

impl View for BoundCreateTable {
    type V = CreateTableView;

    open spec fn view(&self) -> CreateTableView {
        CreateTableView {
            database_id: self.database_id,
            schema_id: self.schema_id,
            table_name: self.table_name@,
            columns: column_catalogs_view(self.columns@),
        }
    }
}

/// What a `drop` removes.
#[derive(Clone, Copy, Debug, PartialEq, Eq, Structural)]
pub enum Object {
    Table(TableRefId),
}

/// A `drop` statement.
#[derive(Clone, Copy, Debug, PartialEq, Eq, Structural)]
pub struct BoundDrop {
    pub object: Object,
}

/// How the rows of a file are laid out.
#[derive(Clone, Copy, Debug, PartialEq, Eq, Structural)]
pub enum FileFormat {
    Csv { delimiter: char, quote: char, escape: Option<char>, header: bool },
}

/// Where a `copy` reads from or writes to.
#[derive(Debug, PartialEq)]
pub enum CopyTarget {
    Stdin,
    Stdout,
    File { filename: String },
    Program { command: String },
}

/// The mathematical value of a [`CopyTarget`].
pub enum CopyTargetView {
    Stdin,
    Stdout,
    File { filename: Seq<char> },
    Program { command: Seq<char> },
}

impl View for CopyTarget {
    type V = CopyTargetView;

    open spec fn view(&self) -> CopyTargetView {
        match self {
            CopyTarget::Stdin => CopyTargetView::Stdin,
            CopyTarget::Stdout => CopyTargetView::Stdout,
            CopyTarget::File { filename } => CopyTargetView::File { filename: filename@ },
            CopyTarget::Program { command } => CopyTargetView::Program { command: command@ },
        }
    }
}

/// A `copy` statement.
#[derive(Debug, PartialEq)]
pub struct BoundCopy {
    pub table_ref_id: TableRefId,
    pub columns: Vec<ColumnCatalog>,
    pub format: FileFormat,
    /// Whether the table is written to the target, rather than read from it.
    pub to: bool,
    pub target: CopyTarget,
}

/// The mathematical value of a [`BoundCopy`].
pub struct CopyView {
    pub table_ref_id: TableRefId,
    pub columns: Seq<ColumnCatalogView>,
    pub format: FileFormat,
    pub to: bool,
    pub target: CopyTargetView,
}

impl View for BoundCopy {
    type V = CopyView;

    open spec fn view(&self) -> CopyView {
        CopyView {
            table_ref_id: self.table_ref_id,
            columns: column_catalogs_view(self.columns@),
            format: self.format,
            to: self.to,
            target: self.target@,
        }
    }
}

/// A `delete` statement.
#[derive(Debug, PartialEq)]
pub struct BoundDelete {
    pub from_table: BoundTableRef,
    pub where_clause: Option<BoundExpr>,
}

/// The mathematical value of a [`BoundDelete`].
pub struct DeleteView {
    pub from_table: TableRefView,
    pub where_clause: Option<ExprView>,
}

impl View for BoundDelete {
    type V = DeleteView;

    open spec fn view(&self) -> DeleteView {
        DeleteView { from_table: self.from_table@, where_clause: clause_view(self.where_clause) }
    }
}

/// A statement, validated against the catalog and typed.
#[derive(Debug, PartialEq)]
pub enum BoundStatement {
    CreateTable(BoundCreateTable),
    Drop(BoundDrop),
    Insert(BoundInsert),
    Copy(BoundCopy),
    Select(Box<BoundSelect>),
    Explain(Box<BoundStatement>),
    Delete(Box<BoundDelete>),
}

/// The mathematical value of a [`BoundStatement`].
pub enum StatementView {
    CreateTable(CreateTableView),
    Drop(BoundDrop),
    Insert(InsertView),
    Copy(CopyView),
    Select(SelectView),
    Explain(Box<StatementView>),
    Delete(DeleteView),
}

impl BoundStatement {
    /// The value of a statement.
    pub open spec fn model(&self) -> StatementView
        decreases self,
    {
        match self {
            BoundStatement::CreateTable(stmt) => StatementView::CreateTable(stmt@),
            BoundStatement::Drop(stmt) => StatementView::Drop(*stmt),
            BoundStatement::Insert(stmt) => StatementView::Insert(stmt@),
            BoundStatement::Copy(stmt) => StatementView::Copy(stmt@),
            BoundStatement::Select(stmt) => StatementView::Select(stmt@),
            BoundStatement::Explain(stmt) => StatementView::Explain(Box::new(stmt.model())),
            BoundStatement::Delete(stmt) => StatementView::Delete(stmt@),
        }
    }
}

impl View for BoundStatement {
    type V = StatementView;

    open spec fn view(&self) -> StatementView {
        self.model()
    }
}

} // verus!
