//! The dynamically typed values that the store gives, and the parameters
//! that the library binds.

use vstd::prelude::*;

verus! {

/// One value read from the store, in one of SQLite's five storage classes.
///
/// A `Real` holds the bit pattern of the IEEE-754 double: the library carries
/// such a value through and never computes with it.
#[derive(Debug, Clone, PartialEq, Eq)]
pub enum SqlValue {
    Null,
    Integer(i64),
    Real(u64),
    Text(String),
    Blob(Vec<u8>),
}

/// What a [`SqlValue`] is, with text and bytes as sequences.
pub enum SqlDatum {
    Null,
    Integer(i64),
    Real(u64),
    Text(Seq<char>),
    Blob(Seq<u8>),
}

impl View for SqlValue {
    type V = SqlDatum;

    open spec fn view(&self) -> SqlDatum {
        match *self {
            SqlValue::Null => SqlDatum::Null,
            SqlValue::Integer(n) => SqlDatum::Integer(n),
            SqlValue::Real(bits) => SqlDatum::Real(bits),
            SqlValue::Text(s) => SqlDatum::Text(s@),
            SqlValue::Blob(b) => SqlDatum::Blob(b@),
        }
    }
}

/// The data of a row, value by value.
pub open spec fn row_data(values: Seq<SqlValue>) -> Seq<SqlDatum> {
    values.map_values(|v: SqlValue| v@)
}

/// The data of a result set, row by row.
pub open spec fn table_data(rows: Seq<Vec<SqlValue>>) -> Seq<Seq<SqlDatum>> {
    rows.map_values(|r: Vec<SqlValue>| row_data(r@))
}

/// A parameter of a statement. The library binds nothing but these three.
#[derive(Debug, Clone, PartialEq, Eq)]
pub enum SqlParam {
    Null,
    Integer(i64),
    Text(String),
}

/// What a [`SqlParam`] is, with text as a sequence.
pub enum SqlArg {
    Null,
    Integer(i64),
    Text(Seq<char>),
}

impl View for SqlParam {
    type V = SqlArg;

    open spec fn view(&self) -> SqlArg {
        match *self {
            SqlParam::Null => SqlArg::Null,
            SqlParam::Integer(n) => SqlArg::Integer(n),
            SqlParam::Text(s) => SqlArg::Text(s@),
        }
    }
}

/// The arguments of a parameter list, one by one.
pub open spec fn args_of(params: Seq<SqlParam>) -> Seq<SqlArg> {
    params.map_values(|p: SqlParam| p@)
}

impl SqlParam {
    /// The argument for an integer that may be absent: `NULL` when it is.
    pub open spec fn optional_integer_arg(value: Option<i64>) -> SqlArg {
        match value {
            Some(n) => SqlArg::Integer(n),
            None => SqlArg::Null,
        }
    }

    /// The argument for a text that may be absent: `NULL` when it is.
    pub open spec fn optional_text_arg(value: Option<String>) -> SqlArg {
        match value {
            Some(s) => SqlArg::Text(s@),
            None => SqlArg::Null,
        }
    }

    /// The parameter for an integer that may be absent.
    pub fn optional_integer(value: Option<i64>) -> (param: SqlParam)
        ensures
            param@ == SqlParam::optional_integer_arg(value),
    {
        match value {
            Some(n) => SqlParam::Integer(n),
            None => SqlParam::Null,
        }
    }

    /// The parameter for a text that may be absent.
    pub fn optional_text(value: &Option<String>) -> (param: SqlParam)
        ensures
            param@ == SqlParam::optional_text_arg(*value),
    {
        match value {
            Some(s) => SqlParam::Text(s.clone()),
            None => SqlParam::Null,
        }
    }
}

} // verus!
