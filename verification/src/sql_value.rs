use vstd::prelude::*;

verus! {

/// A value handed to sqlite as a statement parameter.
#[derive(Debug, PartialEq, Eq)]
pub enum SqlValue {
    Null,
    Integer(i64),
    Text(String),
    Blob(Vec<u8>),
}

/// What a parameter value is: nothing, an integer, the characters of a text or the bytes
/// of a blob.
pub enum SqlValueView {
    Null,
    Integer(i64),
    Text(Seq<char>),
    Blob(Seq<u8>),
}

impl View for SqlValue {
    type V = SqlValueView;

    open spec fn view(&self) -> SqlValueView {
        match self {
            SqlValue::Null => SqlValueView::Null,
            SqlValue::Integer(i) => SqlValueView::Integer(*i),
            SqlValue::Text(s) => SqlValueView::Text(s@),
            SqlValue::Blob(b) => SqlValueView::Blob(b@),
        }
    }
}

/// What a list of parameter values is, value by value.
pub open spec fn params_view(values: Seq<SqlValue>) -> Seq<SqlValueView> {
    values.map_values(|v: SqlValue| v@)
}

impl Clone for SqlValue {
    fn clone(&self) -> (r: SqlValue)
        ensures
            r@ == self@,
    {
        match self {
            SqlValue::Null => SqlValue::Null,
            SqlValue::Integer(i) => SqlValue::Integer(*i),
            SqlValue::Text(s) => SqlValue::Text(s.clone()),
            SqlValue::Blob(b) => {
                let c = b.clone();
                assert(c@ =~= b@);
                SqlValue::Blob(c)
            },
        }
    }
}

/// An sql statement: its text and, in order, the values of its `?` placeholders.
pub struct SqlStatement {
    pub sql: String,
    pub params: Vec<SqlValue>,
}

} // verus!
