use vstd::prelude::*;

use crate::query::{condition_text, empty_query, joined, lemma_joined_take, Query};
use crate::sql_object::SqlObject;
use crate::sql_types::{sqlite_type_name, SqlType};
use crate::sql_value::{params_view, SqlStatement, SqlValue, SqlValueView};

verus! {

/// The column definitions that follow the primary key: `, name type` for each column.
pub open spec fn column_definitions(columns: Seq<(Seq<char>, SqlType)>) -> Seq<
    char,
>
    decreases columns.len(),
{
    if columns.len() == 0 {
        Seq::empty()
    } else {
        column_definitions(columns.drop_last()) + ", "@ + columns.last().0 + " "@ + sqlite_type_name(
            columns.last().1,
        )
    }
}

/// `CREATE TABLE IF NOT EXISTS table (id INTEGER PRIMARY KEY, c1 t1, ...)`.
pub open spec fn create_table_text(
    table: Seq<char>,
    columns: Seq<(Seq<char>, SqlType)>,
) -> Seq<char> {
    "CREATE TABLE IF NOT EXISTS "@ + table + " ("@ + "id INTEGER PRIMARY KEY"@ + column_definitions(
        columns,
    ) + ")"@
}

/// `UPDATE table SET c1 = ?, c2 = ? WHERE id = ?`.
pub open spec fn update_text(table: Seq<char>, columns: Seq<Seq<char>>) -> Seq<char> {
    "UPDATE "@ + table + " SET "@ + joined(
        columns.map_values(|c: Seq<char>| condition_text(c)),
        ", "@,
    ) + " WHERE id = ?"@
}

/// `INSERT INTO table DEFAULT VALUES`.
pub open spec fn insert_text(table: Seq<char>) -> Seq<char> {
    "INSERT INTO "@ + table + " DEFAULT VALUES"@
}

/// `DELETE FROM table WHERE id = ?`.
pub open spec fn delete_text(table: Seq<char>) -> Seq<char> {
    "DELETE FROM "@ + table + " WHERE id = ?"@
}

/// The names of a list of `(column, value)` pairs.
pub open spec fn value_columns(values: Seq<(Seq<char>, SqlValue)>) -> Seq<Seq<char>> {
    values.map_values(|p: (Seq<char>, SqlValue)| p.0)
}

/// The values of a list of `(column, value)` pairs.
pub open spec fn value_params(values: Seq<(Seq<char>, SqlValue)>) -> Seq<SqlValueView> {
    values.map_values(|p: (Seq<char>, SqlValue)| p.1@)
}

/// What saving a record does next.
pub enum SaveAction {
    /// The record has an id: this statement writes every field to its row.
    Update(SqlStatement),
    /// The record has no id: this statement inserts an empty row. The caller then gives
    /// the record the id of the new row and saves it again, which then updates that row.
    Insert(SqlStatement),
}

/// The sql text and parameters of a statement.
pub open spec fn statement_is(st: SqlStatement, sql: Seq<char>, params: Seq<SqlValueView>) -> bool {
    st.sql@ == sql && params_view(st.params@) == params
}

/// What saving a record with the given table, id and field values does.
pub open spec fn save_action_is(
    a: SaveAction,
    table: Seq<char>,
    id: Option<i64>,
    values: Seq<(Seq<char>, SqlValue)>,
) -> bool {
    match id {
        Some(i) => a matches SaveAction::Update(st) && statement_is(
            st,
            update_text(table, value_columns(values)),
            value_params(values).push(SqlValueView::Integer(i)),
        ),
        None => a matches SaveAction::Insert(st) && statement_is(
            st,
            insert_text(table),
            Seq::empty(),
        ),
    }
}

/// The columns of an update joined in order: after the first, each column follows a
/// comma.
pub proof fn lemma_update_conditions(columns: Seq<Seq<char>>, column: Seq<char>)
    ensures
        joined(columns.push(column).map_values(|c: Seq<char>| condition_text(c)), ", "@) == (
        if columns.len() == 0 {
            column + " = ?"@
        } else {
            joined(columns.map_values(|c: Seq<char>| condition_text(c)), ", "@) + ", "@ + column
                + " = ?"@
        }),
{
    let m = columns.map_values(|c: Seq<char>| condition_text(c));
    let m2 = columns.push(column).map_values(|c: Seq<char>| condition_text(c));
    assert(m2 =~= m.push(column + " = ?"@));
    assert(m2.drop_last() =~= m);
}

/// Saving a record that is not in the database inserts an empty row; once the record has
/// been given the id of that row (its fields unchanged), saving it again updates exactly
/// that row with all its fields, the id being the last parameter.
pub proof fn lemma_save_inserts_then_updates<T: SqlObject>(
    fresh: T,
    stored: T,
    rowid: i64,
    first: SaveAction,
    second: SaveAction,
)
    requires
        fresh.id_of() is None,
        stored.id_of() == Some(rowid),
        stored.values_of() == fresh.values_of(),
        save_action_is(first, T::table_name(), fresh.id_of(), fresh.values_of()),
        save_action_is(second, T::table_name(), stored.id_of(), stored.values_of()),
    ensures
        first matches SaveAction::Insert(st) && st.sql@ == insert_text(T::table_name())
            && params_view(st.params@).len() == 0,
        second matches SaveAction::Update(st) && st.sql@ == update_text(
            T::table_name(),
            value_columns(fresh.values_of()),
        ) && params_view(st.params@).len() == fresh.values_of().len() + 1 && params_view(
            st.params@,
        ).last() == SqlValueView::Integer(rowid) && params_view(st.params@).drop_last()
            == value_params(
            fresh.values_of(),
        ),
{
    if let SaveAction::Update(st) = second {
        assert(params_view(st.params@).drop_last() =~= value_params(fresh.values_of()));
    }
}

/// Storage operations of a record type, for every `SqlObject`. Each gives the statement
/// to run; the caller runs it on the database.
pub trait DbObject: SqlObject {
    /// The statement that creates the table of the record type if it does not exist.
    fn initialize() -> (st: SqlStatement)
        ensures
            statement_is(st, create_table_text(Self::table_name(), Self::columns()), Seq::empty()),
    ;

    /// The next step of saving the record: an update of its row when it has an id, else an
    /// insert of an empty row.
    fn save(&self) -> (a: SaveAction)
        ensures
            save_action_is(a, Self::table_name(), self.id_of(), self.values_of()),
    ;

    /// The statement that deletes the row of the record, or `None` when the record has
    /// no id and so is not in the database.
    fn delete(&self) -> (st: Option<SqlStatement>)
        ensures
            match self.id_of() {
                Some(i) => st matches Some(s) && statement_is(
                    s,
                    delete_text(Self::table_name()),
                    seq![SqlValueView::Integer(i)],
                ),
                None => st is None,
            },
    ;

    /// A query for all records of the type.
    fn query() -> (q: Query<Self>)
        ensures
            q@ == empty_query(),
    ;

    /// The empty row that the `Insert` step of saving added got the id `rowid`: the record
    /// now has that id, and its fields are unchanged.
    fn inserted(&mut self, rowid: i64)
        ensures
            final(self).id_of() == Some(rowid),
            final(self).values_of() == old(self).values_of(),
    ;

    /// The row of the record was deleted: the record has no id any more, so it is no
    /// longer in the database, and its fields are unchanged.
    fn deleted(&mut self)
        ensures
            final(self).id_of() is None,
            final(self).values_of() == old(self).values_of(),
    ;
}

impl<T: SqlObject> DbObject for T {
    fn initialize() -> (st: SqlStatement) {
        let fields = T::fields_with_sqltypes();
        let ghost cols = T::columns();
        let mut s = String::new();
        s.append("CREATE TABLE IF NOT EXISTS ");
        s.append(T::get_table_name());
        s.append(" (");
        s.append("id INTEGER PRIMARY KEY");
        let mut i: usize = 0;
        while i < fields.len()
            invariant
                0 <= i <= fields@.len(),
                cols == crate::sql_object::column_types_view(fields@),
                s@ == "CREATE TABLE IF NOT EXISTS "@ + T::table_name() + " ("@
                    + "id INTEGER PRIMARY KEY"@ + column_definitions(cols.take(i as int)),
            decreases fields@.len() - i,
        {
            let (column, typename) = fields[i];
            s.append(", ");
            s.append(column);
            s.append(" ");
            s.append(typename.to_sqlite_str());
            proof {
                let t = cols.take(i + 1);
                assert(t.drop_last() =~= cols.take(i as int));
                assert(t.last() == (column@, typename));
            }
            i = i + 1;
        }
        s.append(")");
        assert(cols.take(fields@.len() as int) =~= cols);
        let params: Vec<SqlValue> = Vec::new();
        assert(params_view(params@) =~= Seq::<SqlValueView>::empty());
        SqlStatement { sql: s, params }
    }

    fn save(&self) -> (a: SaveAction) {
        match self.get_id() {
            Some(id) => {
                let fields = self.fields_with_values();
                let ghost values = self.values_of();
                let ghost terms = value_columns(values).map_values(
                    |c: Seq<char>| condition_text(c),
                );
                let mut s = String::new();
                s.append("UPDATE ");
                s.append(T::get_table_name());
                s.append(" SET ");
                let mut params: Vec<SqlValue> = Vec::new();
                let mut i: usize = 0;
                while i < fields.len()
                    invariant
                        0 <= i <= fields@.len(),
                        values == crate::sql_object::column_values_view(fields@),
                        terms == value_columns(values).map_values(
                            |c: Seq<char>| condition_text(c),
                        ),
                        terms.len() == fields@.len(),
                        s@ == "UPDATE "@ + T::table_name() + " SET "@ + joined(
                            terms.take(i as int),
                            ", "@,
                        ),
                        params_view(params@) =~= value_params(values).take(i as int),
                    decreases fields@.len() - i,
                {
                    proof {
                        lemma_joined_take(terms, ", "@, i as int);
                    }
                    if i > 0 {
                        s.append(", ");
                    }
                    s.append(fields[i].0);
                    s.append(" = ?");
                    assert(terms[i as int] == fields@[i as int].0@ + " = ?"@);
                    if i > 0 {
                        assert(s@ =~= "UPDATE "@ + T::table_name() + " SET "@ + (joined(
                            terms.take(i as int),
                            ", "@,
                        ) + ", "@ + terms[i as int]));
                    } else {
                        assert(s@ =~= "UPDATE "@ + T::table_name() + " SET "@ + terms[i as int]);
                    }
                    let v = fields[i].1.clone();
                    let ghost before = params@;
                    params.push(v);
                    proof {
                        assert(params_view(params@) =~= params_view(before).push(v@));
                        assert(value_params(values)[i as int] == fields@[i as int].1@);
                        assert(value_params(values).take(i + 1) =~= value_params(values).take(
                            i as int,
                        ).push(value_params(values)[i as int]));
                    }
                    i = i + 1;
                }
                assert(terms.take(fields@.len() as int) =~= terms);
                s.append(" WHERE id = ?");
                assert(value_params(values).take(fields@.len() as int) =~= value_params(values));
                let ghost before = params@;
                params.push(SqlValue::Integer(id));
                assert(params_view(params@) =~= params_view(before).push(
                    SqlValueView::Integer(id),
                ));
                assert(params_view(params@) =~= value_params(values).push(
                    SqlValueView::Integer(id),
                ));
                SaveAction::Update(SqlStatement { sql: s, params })
            },
            None => {
                let mut s = String::new();
                s.append("INSERT INTO ");
                s.append(T::get_table_name());
                s.append(" DEFAULT VALUES");
                let params: Vec<SqlValue> = Vec::new();
                assert(params_view(params@) =~= Seq::<SqlValueView>::empty());
                SaveAction::Insert(SqlStatement { sql: s, params })
            },
        }
    }

    fn delete(&self) -> (st: Option<SqlStatement>) {
        match self.get_id() {
            Some(id) => {
                let mut s = String::new();
                s.append("DELETE FROM ");
                s.append(T::get_table_name());
                s.append(" WHERE id = ?");
                let mut params: Vec<SqlValue> = Vec::new();
                params.push(SqlValue::Integer(id));
                assert(params_view(params@) =~= seq![SqlValueView::Integer(id)]);
                Some(SqlStatement { sql: s, params })
            },
            None => None,
        }
    }

    fn query() -> (q: Query<T>) {
        Query::new()
    }

    fn inserted(&mut self, rowid: i64) {
        self.set_id(Some(rowid));
    }

    fn deleted(&mut self) {
        self.set_id(None);
    }
}

/// A deleted record is no longer in the database: deleting it again gives no statement,
/// and saving it inserts a new row before its fields are written.
pub proof fn lemma_deleted_record_is_new<T: SqlObject>(
    record: T,
    second_delete: Option<SqlStatement>,
    save: SaveAction,
)
    requires
        record.id_of() is None,
        match record.id_of() {
            Some(i) => second_delete matches Some(s) && statement_is(
                s,
                delete_text(T::table_name()),
                seq![SqlValueView::Integer(i)],
            ),
            None => second_delete is None,
        },
        save_action_is(save, T::table_name(), record.id_of(), record.values_of()),
    ensures
        second_delete is None,
        save matches SaveAction::Insert(st) && st.sql@ == insert_text(T::table_name()),
{
}

} // verus!
