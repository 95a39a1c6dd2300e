//! Data types and literal values.

use vstd::prelude::*;
use crate::catalog::ColumnDesc;
use crate::catalog::ColumnDescView;

verus! {

/// The kind of a column or expression type. A length or precision, where the
/// kind takes one, is optional.
#[derive(Clone, Copy, Debug, PartialEq, Eq, Hash, Structural)]
pub enum DataTypeKind {
    Boolean,
    Int(Option<u64>),
    BigInt(Option<u64>),
    Float(Option<u64>),
    Double,
    Char(Option<u64>),
    Varchar(Option<u64>),
    Date,
}

/// A kind together with its nullability.
#[derive(Clone, Copy, Debug, PartialEq, Eq, Hash, Structural)]
pub struct DataType {
    pub kind: DataTypeKind,
    pub nullable: bool,
}

impl DataType {
    pub fn new(kind: DataTypeKind, nullable: bool) -> (datatype: DataType)
        ensures
            datatype == (DataType { kind, nullable }),
    {
        DataType { kind, nullable }
    }

    /// The kind of the type.
    pub fn kind(&self) -> (kind: DataTypeKind)
        ensures
            kind == self.kind,
    {
        self.kind
    }

    /// Whether the type admits nulls.
    pub fn is_nullable(&self) -> (nullable: bool)
        ensures
            nullable == self.nullable,
    {
        self.nullable
    }

    /// A column of this type that is not a primary key.
    pub fn to_column(self, name: String) -> (desc: ColumnDesc)
        ensures
            desc@ == (ColumnDescView { datatype: self, name: name@, is_primary: false }),
    {
        ColumnDesc::new(self, name, false)
    }

    /// A primary-key column of this type.
    pub fn to_column_primary_key(self, name: String) -> (desc: ColumnDesc)
        ensures
            desc@ == (ColumnDescView { datatype: self, name: name@, is_primary: true }),
    {
        ColumnDesc::new(self, name, true)
    }
}

impl DataTypeKind {
    /// The type of this kind that admits nulls.
    pub fn nullable(self) -> (datatype: DataType)
        ensures
            datatype == (DataType { kind: self, nullable: true }),
    {
        DataType { kind: self, nullable: true }
    }

    /// The type of this kind that admits no null.
    pub fn not_null(self) -> (datatype: DataType)
        ensures
            datatype == (DataType { kind: self, nullable: false }),
    {
        DataType { kind: self, nullable: false }
    }
}

/// A copy of a list of types.
pub fn clone_types(types: &Vec<DataType>) -> (copy: Vec<DataType>)
    ensures
        copy@ == types@,
{
    let copy = types.clone();
    assert(copy@ =~= types@);
    copy
}

/// A literal value. A 64-bit floating-point literal is held by its IEEE 754
/// bit pattern.
#[derive(Debug, PartialEq)]
pub enum DataValue {
    Null,
    Bool(bool),
    Int32(i32),
    Int64(i64),
    Float64(u64),
    String(String),
}

/// The mathematical value of a [`DataValue`].
pub enum DataValueView {
    Null,
    Bool(bool),
    Int32(i32),
    Int64(i64),
    Float64(u64),
    String(Seq<char>),
}

impl View for DataValue {
    type V = DataValueView;

    open spec fn view(&self) -> DataValueView {
        match self {
            DataValue::Null => DataValueView::Null,
            DataValue::Bool(b) => DataValueView::Bool(*b),
            DataValue::Int32(v) => DataValueView::Int32(*v),
            DataValue::Int64(v) => DataValueView::Int64(*v),
            DataValue::Float64(bits) => DataValueView::Float64(*bits),
            DataValue::String(s) => DataValueView::String(s@),
        }
    }
}

impl Clone for DataValue {
    fn clone(&self) -> (copy: DataValue)
        ensures
            copy@ == self@,
    {
        match self {
            DataValue::Null => DataValue::Null,
            DataValue::Bool(b) => DataValue::Bool(*b),
            DataValue::Int32(v) => DataValue::Int32(*v),
            DataValue::Int64(v) => DataValue::Int64(*v),
            DataValue::Float64(bits) => DataValue::Float64(*bits),
            DataValue::String(s) => DataValue::String(s.clone()),
        }
    }
}

/// A literal that cannot be read as the type that a clause asks for.
#[derive(Debug, PartialEq)]
pub enum ConvertError {
    /// The value is not an unsigned integer that fits the machine word.
    Cast(DataValue),
}

/// The mathematical value of a [`ConvertError`].
pub enum ConvertErrorView {
    Cast(DataValueView),
}

impl View for ConvertError {
    type V = ConvertErrorView;

    open spec fn view(&self) -> ConvertErrorView {
        match self {
            ConvertError::Cast(v) => ConvertErrorView::Cast(v@),
        }
    }
}

impl DataValueView {
    /// The type of a literal; a null has none.
    pub open spec fn data_type(self) -> Option<DataType> {
        match self {
            DataValueView::Null => None,
            DataValueView::Bool(_) => Some(DataType { kind: DataTypeKind::Boolean, nullable: false }),
            DataValueView::Int32(_) => Some(
                DataType { kind: DataTypeKind::Int(None), nullable: false },
            ),
            DataValueView::Int64(_) => Some(
                DataType { kind: DataTypeKind::BigInt(None), nullable: false },
            ),
            DataValueView::Float64(_) => Some(
                DataType { kind: DataTypeKind::Double, nullable: false },
            ),
            DataValueView::String(_) => Some(
                DataType { kind: DataTypeKind::Varchar(None), nullable: false },
            ),
        }
    }

    /// The count that a literal stands for: a null stands for none, an integer
    /// from zero up to the largest machine word for itself, and nothing else
    /// for a count.
    pub open spec fn as_count(self) -> Result<Option<usize>, ConvertErrorView> {
        match self {
            DataValueView::Null => Ok(None),
            DataValueView::Int32(v) => if 0 <= v <= usize::MAX {
                Ok(Some(v as usize))
            } else {
                Err(ConvertErrorView::Cast(self))
            },
            DataValueView::Int64(v) => if 0 <= v <= usize::MAX {
                Ok(Some(v as usize))
            } else {
                Err(ConvertErrorView::Cast(self))
            },
            _ => Err(ConvertErrorView::Cast(self)),
        }
    }
}

impl DataValue {
    /// The type of the literal; a null has none.
    pub fn data_type(&self) -> (datatype: Option<DataType>)
        ensures
            datatype == self@.data_type(),
    {
        match self {
            DataValue::Null => None,
            DataValue::Bool(_) => Some(DataType::new(DataTypeKind::Boolean, false)),
            DataValue::Int32(_) => Some(DataType::new(DataTypeKind::Int(None), false)),
            DataValue::Int64(_) => Some(DataType::new(DataTypeKind::BigInt(None), false)),
            DataValue::Float64(_) => Some(DataType::new(DataTypeKind::Double, false)),
            DataValue::String(_) => Some(DataType::new(DataTypeKind::Varchar(None), false)),
        }
    }

    /// Reads the literal as a count of rows.
    pub fn as_usize(&self) -> (count: Result<Option<usize>, ConvertError>)
        ensures
            match (count, self@.as_count()) {
                (Ok(n), Ok(m)) => n == m,
                (Err(e), Err(f)) => e@ == f,
                _ => false,
            },
    {
        match self {
            DataValue::Null => Ok(None),
            DataValue::Int32(v) => {
                if *v >= 0 && (*v as u64) <= (usize::MAX as u64) {
                    Ok(Some(*v as usize))
                } else {
                    Err(ConvertError::Cast(self.clone()))
                }
            },
            DataValue::Int64(v) => {
                if *v >= 0 && (*v as u64) <= (usize::MAX as u64) {
                    Ok(Some(*v as usize))
                } else {
                    Err(ConvertError::Cast(self.clone()))
                }
            },
            _ => Err(ConvertError::Cast(self.clone())),
        }
    }

    /// Whether two literals have the same value.
    pub fn equals(&self, other: &DataValue) -> (same: bool)
        ensures
            same == (self@ == other@),
    {
        match (self, other) {
            (DataValue::Null, DataValue::Null) => true,
            (DataValue::Bool(a), DataValue::Bool(b)) => *a == *b,
            (DataValue::Int32(a), DataValue::Int32(b)) => *a == *b,
            (DataValue::Int64(a), DataValue::Int64(b)) => *a == *b,
            (DataValue::Float64(a), DataValue::Float64(b)) => *a == *b,
            (DataValue::String(a), DataValue::String(b)) => *a == *b,
            _ => false,
        }
    }
}

} // verus!
