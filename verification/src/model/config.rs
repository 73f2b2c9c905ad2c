use vstd::prelude::*;

use crate::db_object::{create_table_text, lemma_update_conditions, save_action_is, statement_is, SaveAction};
use crate::sql_object::SqlObject;
use crate::sql_types::{SqlType, SqlTyped};
use crate::sql_value::{params_view, SqlStatement, SqlValue, SqlValueView};
use rand::Rng;

verus! {

/// A named setting, such as the password salt.
#[derive(Debug, PartialEq, Eq)]
pub struct Config {
    pub id: Option<i64>,
    pub name: String,
    pub value: String,
}

/// Whether `c` is an ASCII letter or digit.
pub open spec fn is_ascii_alphanumeric(c: char) -> bool {
    ('0' <= c <= '9') || ('A' <= c <= 'Z') || ('a' <= c <= 'z')
}

/// Draws `len` characters from the thread's random generator with `rand`'s `Alphanumeric`
/// distribution. The text is random; what holds of every outcome is what `rand` documents:
/// `len` characters, each an ASCII letter or digit.
#[verifier::external_body]
fn random_alphanumeric(len: usize) -> (s: String)
    ensures
        s@.len() == len,
        forall|i: int| 0 <= i < s@.len() ==> is_ascii_alphanumeric(#[trigger] s@[i]),
{
    rand::thread_rng().sample_iter(&rand::distributions::Alphanumeric).take(len).map(
        char::from,
    ).collect::<String>()
}

impl Config {
    /// The setting that holds the password salt: created with 64 random letters and digits
    /// when the database has none (`found` is what the lookup of `salt` gave), else
    /// nothing is created.
    pub fn salt_if_missing(found: &Option<Config>) -> (c: Option<Config>)
        ensures
            c is Some <==> found is None,
            c matches Some(salt) ==> salt.id is None && salt.name@ == "salt"@ && salt.value@.len()
                == 64 && forall|i: int|
                0 <= i < 64 ==> is_ascii_alphanumeric(#[trigger] salt.value@[i]),
    {
        if found.is_none() {
            let value = random_alphanumeric(64);
            Some(Config::new("salt", value.as_str()))
        } else {
            None
        }
    }

    /// A new setting, not yet in the database.
    pub fn new(name: &'static str, value: &str) -> (c: Config)
        ensures
            c.id is None,
            c.name@ == name@,
            c.value@ == value@,
    {
        Config { id: None, name: name.to_string(), value: value.to_string() }
    }

    /// Builds a setting from what was read from the columns of its row: `id`, `name` and
    /// `value`, in this order. The first column that could not be read gives the error.
    pub fn from_columns<E>(
        id: Result<Option<i64>, E>,
        name: Result<String, E>,
        value: Result<String, E>,
    ) -> (r: Result<Config, E>)
        ensures
            id matches Err(e) ==> r == Err::<Config, E>(e),
            id is Ok ==> (name matches Err(e) ==> r == Err::<Config, E>(e)),
            id is Ok && name is Ok ==> (value matches Err(e) ==> r == Err::<Config, E>(e)),
            id matches Ok(i) ==> (
                name matches Ok(n) ==> (
                    value matches Ok(v) ==> r == Ok::<Config, E>(
                        (Config { id: i, name: n, value: v }),
                    )
                )
            ),
    {
        let id = match id {
            Ok(v) => v,
            Err(e) => return Err(e),
        };
        let name = match name {
            Ok(v) => v,
            Err(e) => return Err(e),
        };
        let value = match value {
            Ok(v) => v,
            Err(e) => return Err(e),
        };
        Ok(Config { id, name, value })
    }
}

impl SqlObject for Config {
    open spec fn id_of(&self) -> Option<i64> {
        self.id
    }

    open spec fn table_name() -> Seq<char> {
        "Config"@
    }

    open spec fn columns() -> Seq<(Seq<char>, SqlType)> {
        seq![("name"@, SqlType::Text), ("value"@, SqlType::Text)]
    }

    open spec fn values_of(&self) -> Seq<(Seq<char>, SqlValue)> {
        seq![("name"@, SqlValue::Text(self.name)), ("value"@, SqlValue::Text(self.value))]
    }

    fn set_id(&mut self, id: Option<i64>) {
        self.id = id;
    }

    fn get_id(&self) -> (r: Option<i64>) {
        self.id
    }

    fn get_table_name() -> (r: &'static str) {
        "Config"
    }

    fn fields_with_sqltypes() -> (r: Vec<(&'static str, SqlType)>) {
        let r = vec![
            ("name", <String as SqlTyped>::get_sql_type()),
            ("value", <String as SqlTyped>::get_sql_type()),
        ];
        assert(crate::sql_object::column_types_view(r@) =~= Self::columns());
        r
    }

    fn fields_with_values(&self) -> (r: Vec<(&'static str, SqlValue)>) {
        let r = vec![
            ("name", SqlValue::Text(self.name.clone())),
            ("value", SqlValue::Text(self.value.clone())),
        ];
        assert(crate::sql_object::column_values_view(r@) =~= self.values_of());
        r
    }
}

/// Saving a stored setting writes each field into the column of its name: the row with the
/// setting's id gets its name in `name` and its value in `value`.
pub proof fn lemma_config_save_writes_fields(c: Config, a: SaveAction)
    requires
        c.id is Some,
        save_action_is(a, Config::table_name(), c.id_of(), c.values_of()),
    ensures
        a matches SaveAction::Update(st) && st.sql@
            == "UPDATE Config SET name = ?, value = ? WHERE id = ?"@ && params_view(st.params@)
            == seq![
            SqlValueView::Text(c.name@),
            SqlValueView::Text(c.value@),
            SqlValueView::Integer(c.id.unwrap()),
        ],
{
    reveal_strlit("UPDATE Config SET name = ?, value = ? WHERE id = ?");
    reveal_strlit("UPDATE ");
    reveal_strlit(" SET ");
    reveal_strlit(" = ?");
    reveal_strlit(", ");
    reveal_strlit(" WHERE id = ?");
    reveal_strlit("Config");
    reveal_strlit("name");
    reveal_strlit("value");
    let cols = crate::db_object::value_columns(c.values_of());
    assert(cols =~= seq!["name"@].push("value"@));
    lemma_update_conditions(seq!["name"@], "value"@);
    lemma_update_conditions(Seq::empty(), "name"@);
    assert(seq!["name"@] =~= Seq::<Seq<char>>::empty().push("name"@));
    if let SaveAction::Update(st) = a {
        assert(st.sql@ =~= "UPDATE Config SET name = ?, value = ? WHERE id = ?"@);
    }
}

/// The table of the config records has one column per field, in the order of the fields,
/// each with the sqlite type of the field.
pub proof fn lemma_config_table_columns(st: SqlStatement)
    requires
        statement_is(st, create_table_text(Config::table_name(), Config::columns()), Seq::empty()),
    ensures
        st.sql@ == "CREATE TABLE IF NOT EXISTS Config (id INTEGER PRIMARY KEY, name text, value text)"@,
{
    reveal_strlit("CREATE TABLE IF NOT EXISTS Config (id INTEGER PRIMARY KEY, name text, value text)");
    reveal_strlit("CREATE TABLE IF NOT EXISTS ");
    reveal_strlit(" (");
    reveal_strlit("id INTEGER PRIMARY KEY");
    reveal_strlit(", ");
    reveal_strlit(" ");
    reveal_strlit(")");
    reveal_strlit("Config");
    reveal_strlit("name");
    reveal_strlit("value");
    reveal_strlit("text");
    let d0 = Seq::<(Seq<char>, SqlType)>::empty();
    let d1 = d0.push(("name"@, SqlType::Text));
    assert(d1.drop_last() =~= d0);
    assert(crate::db_object::column_definitions(d1) == crate::db_object::column_definitions(
        d0,
    ) + ", "@ + "name"@ + " "@ + crate::sql_types::sqlite_type_name(SqlType::Text));
    let d2 = d1.push(("value"@, SqlType::Text));
    assert(d2.drop_last() =~= d1);
    assert(crate::db_object::column_definitions(d2) == crate::db_object::column_definitions(
        d1,
    ) + ", "@ + "value"@ + " "@ + crate::sql_types::sqlite_type_name(SqlType::Text));
    assert(Config::columns() =~= d2);
    assert(st.sql@ =~= "CREATE TABLE IF NOT EXISTS Config (id INTEGER PRIMARY KEY, name text, value text)"@);
}

} // verus!
