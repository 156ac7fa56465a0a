use vstd::prelude::*;

verus! {

/// The storage class of a value handed in by the SQL engine.
#[derive(Clone, Copy, Debug, PartialEq, Eq, Structural)]
pub enum ValueType {
    Null,
    Integer,
    Real,
    Text,
    Blob,
}

/// A function argument as the SQL engine hands it over.
///
/// A real number matters here only by its type, so its value is
/// not carried.
#[derive(Clone, Debug)]
pub enum SqlValue {
    Null,
    Integer(i64),
    Real,
    Text(Vec<u8>),
    Blob(Vec<u8>),
}

/// The storage class of `v`.
pub open spec fn type_of(v: SqlValue) -> ValueType {
    match v {
        SqlValue::Null => ValueType::Null,
        SqlValue::Integer(_) => ValueType::Integer,
        SqlValue::Real => ValueType::Real,
        SqlValue::Text(_) => ValueType::Text,
        SqlValue::Blob(_) => ValueType::Blob,
    }
}

impl SqlValue {
    /// The storage class of this value.
    pub fn value_type(&self) -> (r: ValueType)
        ensures
            r == type_of(*self),
    {
        match self {
            SqlValue::Null => ValueType::Null,
            SqlValue::Integer(_) => ValueType::Integer,
            SqlValue::Real => ValueType::Real,
            SqlValue::Text(_) => ValueType::Text,
            SqlValue::Blob(_) => ValueType::Blob,
        }
    }
}

} // verus!
