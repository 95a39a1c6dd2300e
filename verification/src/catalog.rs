//! Identifiers and column metadata handed over by the catalog.

use vstd::prelude::*;
use crate::types::DataType;

verus! {

/// The number of a database.
pub type DatabaseId = u32;

/// The number of a schema within its database.
pub type SchemaId = u32;

/// The number of a table within its schema.
pub type TableId = u32;

/// The number of a column within its table.
pub type ColumnId = u32;

/// The position of a table in the catalog.
#[derive(Clone, Copy, Debug, PartialEq, Eq, Hash, Structural)]
pub struct TableRefId {
    pub database_id: DatabaseId,
    pub schema_id: SchemaId,
    pub table_id: TableId,
}

impl TableRefId {
    pub fn new(database_id: DatabaseId, schema_id: SchemaId, table_id: TableId) -> (id: TableRefId)
        ensures
            id == (TableRefId { database_id, schema_id, table_id }),
    {
        TableRefId { database_id, schema_id, table_id }
    }
}

/// The position of a column in the catalog.
#[derive(Clone, Copy, Debug, PartialEq, Eq, Hash, Structural)]
pub struct ColumnRefId {
    pub database_id: DatabaseId,
    pub schema_id: SchemaId,
    pub table_id: TableId,
    pub column_id: ColumnId,
}

impl ColumnRefId {
    /// The column `column_id` of the table `table`.
    pub open spec fn of_table(table: TableRefId, column_id: ColumnId) -> ColumnRefId {
        ColumnRefId {
            database_id: table.database_id,
            schema_id: table.schema_id,
            table_id: table.table_id,
            column_id,
        }
    }

    pub fn new(
        database_id: DatabaseId,
        schema_id: SchemaId,
        table_id: TableId,
        column_id: ColumnId,
    ) -> (id: ColumnRefId)
        ensures
            id == (ColumnRefId { database_id, schema_id, table_id, column_id }),
    {
        ColumnRefId { database_id, schema_id, table_id, column_id }
    }

    /// The column `column_id` of the table `table`.
    pub fn from_table(table: TableRefId, column_id: ColumnId) -> (id: ColumnRefId)
        ensures
            id == ColumnRefId::of_table(table, column_id),
    {
        ColumnRefId {
            database_id: table.database_id,
            schema_id: table.schema_id,
            table_id: table.table_id,
            column_id,
        }
    }
}

/// What the catalog knows of one column: its type, its name, and whether it is
/// the primary key of its table.
#[derive(Debug, PartialEq)]
pub struct ColumnDesc {
    pub datatype: DataType,
    pub name: String,
    pub is_primary: bool,
}

/// The mathematical value of a [`ColumnDesc`].
pub struct ColumnDescView {
    pub datatype: DataType,
    pub name: Seq<char>,
    pub is_primary: bool,
}

impl View for ColumnDesc {
    type V = ColumnDescView;

    open spec fn view(&self) -> ColumnDescView {
        ColumnDescView { datatype: self.datatype, name: self.name@, is_primary: self.is_primary }
    }
}

impl Clone for ColumnDesc {
    fn clone(&self) -> (copy: ColumnDesc)
        ensures
            copy@ == self@,
    {
        ColumnDesc {
            datatype: self.datatype,
            name: self.name.clone(),
            is_primary: self.is_primary,
        }
    }
}

impl ColumnDesc {
    pub fn new(datatype: DataType, name: String, is_primary: bool) -> (desc: ColumnDesc)
        ensures
            desc@ == (ColumnDescView { datatype, name: name@, is_primary }),
    {
        ColumnDesc { datatype, name, is_primary }
    }

    /// The type of the column.
    pub fn datatype(&self) -> (datatype: DataType)
        ensures
            datatype == self@.datatype,
    {
        self.datatype
    }

    /// The name of the column.
    pub fn name(&self) -> (name: &String)
        ensures
            name@ == self@.name,
    {
        &self.name
    }

    /// Whether the column is the primary key of its table.
    pub fn is_primary(&self) -> (is_primary: bool)
        ensures
            is_primary == self@.is_primary,
    {
        self.is_primary
    }

    /// Whether two descriptors have the same value.
    pub fn equals(&self, other: &ColumnDesc) -> (same: bool)
        ensures
            same == (self@ == other@),
    {
        self.datatype == other.datatype && self.name == other.name && self.is_primary
            == other.is_primary
    }
}

/// The views of a sequence of column descriptors, one for one.
pub open spec fn column_descs_view(descs: Seq<ColumnDesc>) -> Seq<ColumnDescView> {
    descs.map_values(|d: ColumnDesc| d@)
}

/// A copy of a list of column descriptors with the same value.
pub fn clone_column_descs(descs: &Vec<ColumnDesc>) -> (copy: Vec<ColumnDesc>)
    ensures
        column_descs_view(copy@) == column_descs_view(descs@),
{
    let copy = descs.clone();
    assert(column_descs_view(copy@) =~= column_descs_view(descs@));
    copy
}

/// A copy of a list of column ids.
pub fn clone_column_ids(ids: &Vec<ColumnId>) -> (copy: Vec<ColumnId>)
    ensures
        copy@ == ids@,
{
    let copy = ids.clone();
    assert(copy@ =~= ids@);
    copy
}

/// A column as the catalog lists it: its id within the table, and its descriptor.
#[derive(Debug, PartialEq)]
pub struct ColumnCatalog {
    pub id: ColumnId,
    pub desc: ColumnDesc,
}

/// The mathematical value of a [`ColumnCatalog`].
pub struct ColumnCatalogView {
    pub id: ColumnId,
    pub desc: ColumnDescView,
}

impl View for ColumnCatalog {
    type V = ColumnCatalogView;

    open spec fn view(&self) -> ColumnCatalogView {
        ColumnCatalogView { id: self.id, desc: self.desc@ }
    }
}

impl Clone for ColumnCatalog {
    fn clone(&self) -> (copy: ColumnCatalog)
        ensures
            copy@ == self@,
    {
        ColumnCatalog { id: self.id, desc: self.desc.clone() }
    }
}

impl ColumnCatalog {
    pub fn new(id: ColumnId, desc: ColumnDesc) -> (column: ColumnCatalog)
        ensures
            column@ == (ColumnCatalogView { id, desc: desc@ }),
    {
        ColumnCatalog { id, desc }
    }

    /// The id of the column within its table.
    pub fn id(&self) -> (id: ColumnId)
        ensures
            id == self@.id,
    {
        self.id
    }

    /// The type of the column.
    pub fn datatype(&self) -> (datatype: DataType)
        ensures
            datatype == self@.desc.datatype,
    {
        self.desc.datatype
    }
}

/// The views of a sequence of catalog columns, one for one.
pub open spec fn column_catalogs_view(columns: Seq<ColumnCatalog>) -> Seq<ColumnCatalogView> {
    columns.map_values(|c: ColumnCatalog| c@)
}

/// A copy of a list of catalog columns with the same value.
pub fn clone_column_catalogs(columns: &Vec<ColumnCatalog>) -> (copy: Vec<ColumnCatalog>)
    ensures
        column_catalogs_view(copy@) == column_catalogs_view(columns@),
{
    let copy = columns.clone();
    assert(column_catalogs_view(copy@) =~= column_catalogs_view(columns@));
    copy
}

} // verus!
