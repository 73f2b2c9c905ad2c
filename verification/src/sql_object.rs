use vstd::prelude::*;

use crate::sql_types::SqlType;
use crate::sql_value::SqlValue;

verus! {

/// The column names and types of a list of `(column, type)` pairs.
pub open spec fn column_types_view(v: Seq<(&'static str, SqlType)>) -> Seq<(Seq<char>, SqlType)> {
    v.map_values(|p: (&'static str, SqlType)| (p.0@, p.1))
}

/// The column names and values of a list of `(column, value)` pairs.
pub open spec fn column_values_view(v: Seq<(&'static str, SqlValue)>) -> Seq<(Seq<char>, SqlValue)> {
    v.map_values(|p: (&'static str, SqlValue)| (p.0@, p.1))
}

/// A record type that is stored as one row of its own table. The column `id` is the
/// primary key; the other columns are the record's fields.
pub trait SqlObject: Sized {
    /// The id of the record, or `None` when it is not in the database.
    spec fn id_of(&self) -> Option<i64>;

    /// The name of the table the records are stored in.
    spec fn table_name() -> Seq<char>;

    /// The names and column types of the fields, `id` left out.
    spec fn columns() -> Seq<(Seq<char>, SqlType)>;

    /// The names and values of the fields, `id` left out.
    spec fn values_of(&self) -> Seq<(Seq<char>, SqlValue)>;

    /// Sets the id of the record or clears it (no id: the record is not in the database).
    fn set_id(&mut self, id: Option<i64>)
        ensures
            final(self).id_of() == id,
            final(self).values_of() == old(self).values_of(),
    ;

    /// The id of the record, or `None` when it is not in the database.
    fn get_id(&self) -> (r: Option<i64>)
        ensures
            r == self.id_of(),
    ;

    /// The name of the table the records are stored in.
    fn get_table_name() -> (r: &'static str)
        ensures
            r@ == Self::table_name(),
    ;

    /// All field names and their column types.
    fn fields_with_sqltypes() -> (r: Vec<(&'static str, SqlType)>)
        ensures
            column_types_view(r@) == Self::columns(),
    ;

    /// All field names and their values.
    fn fields_with_values(&self) -> (r: Vec<(&'static str, SqlValue)>)
        ensures
            column_values_view(r@) == self.values_of(),
    ;
}

} // verus!
