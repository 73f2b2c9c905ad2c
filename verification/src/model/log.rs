use vstd::prelude::*;

use crate::model::user::User;
use crate::sql_object::SqlObject;
use crate::sql_types::{SqlType, SqlTyped};
use crate::db_object::{
    create_table_text, lemma_update_conditions, save_action_is, statement_is, value_columns,
    DbObject, SaveAction,
};
use crate::query::{Query, QueryView, SortOrder};
use crate::sql_value::{params_view, SqlStatement, SqlValue, SqlValueView};
use crate::text::{int_decimal_width2, push_int_decimal_width2};

verus! {

/// One use of the laser: who used it, for which project, and from when to when (unix
/// timestamps in seconds; the end is 0 while the use lasts).
#[derive(Debug, PartialEq, Eq)]
pub struct Log {
    pub id: Option<i64>,
    pub user_email: String,
    pub entry: String,
    pub timestamp_start: i64,
    pub timestamp_end: i64,
}

impl Clone for Log {
    fn clone(&self) -> (r: Log)
        ensures
            r == *self,
    {
        Log {
            id: self.id,
            user_email: self.user_email.clone(),
            entry: self.entry.clone(),
            timestamp_start: self.timestamp_start,
            timestamp_end: self.timestamp_end,
        }
    }
}

/// Integer division rounded toward zero, as Rust divides signed integers (`b > 0`).
pub open spec fn div_toward_zero(a: int, b: int) -> int {
    if a >= 0 {
        a / b
    } else {
        -((-a) / b)
    }
}

/// The remainder that goes with `div_toward_zero`: it has the sign of `a`.
pub open spec fn rem_toward_zero(a: int, b: int) -> int {
    a - b * div_toward_zero(a, b)
}

/// The length of a use as `hh:mm:ss`: whole hours, the minutes within the hour and the
/// seconds within the minute of `end - start`, each written with `{:02}` (negative parts
/// keep their minus sign).
pub open spec fn duration_text(start: int, end: int) -> Seq<char> {
    let d = end - start;
    int_decimal_width2(div_toward_zero(d, 3600)) + ":"@ + int_decimal_width2(
        rem_toward_zero(div_toward_zero(d, 60), 60),
    ) + ":"@ + int_decimal_width2(rem_toward_zero(d, 60))
}

/// The three numbers of a duration text put the duration back together: hours, minutes
/// and seconds, all with the sign of the duration, add up to it, and minutes and seconds
/// stay below 60 in size.
pub proof fn lemma_duration_parts_recompose(d: int)
    ensures
        div_toward_zero(d, 3600) * 3600 + rem_toward_zero(div_toward_zero(d, 60), 60) * 60
            + rem_toward_zero(d, 60) == d,
        -60 < rem_toward_zero(div_toward_zero(d, 60), 60) < 60,
        -60 < rem_toward_zero(d, 60) < 60,
{
    let m = if d >= 0 {
        d
    } else {
        -d
    };
    assert(m == (m / 3600) * 3600 + ((m / 60) % 60) * 60 + m % 60) by (nonlinear_arith)
        requires
            m >= 0,
    {
        assert(m / 60 == (m / 3600) * 60 + (m / 60) % 60) by (nonlinear_arith)
            requires
                m >= 0,
        {
            assert(m / 3600 == (m / 60) / 60) by (nonlinear_arith)
                requires
                    m >= 0,
            ;
        }
    }
    assert(m / 3600 == (m / 60) / 60) by (nonlinear_arith)
        requires
            m >= 0,
    ;
    if d < 0 {
        assert(div_toward_zero(d, 60) == -(m / 60));
        assert(div_toward_zero(div_toward_zero(d, 60), 60) == -((m / 60) / 60));
    }
}

/// Whether `q` is the history query: the constraint `user_email = email` when an email is
/// given (none otherwise), no limit, the sort by `timestamp_start` newest first, and no
/// grouping.
pub open spec fn is_history_query(q: QueryView, email: Option<Seq<char>>) -> bool {
    &&& match email {
        Some(e) => q.constraints.len() == 1 && q.constraints[0].0 == "user_email"@ && (
        q.constraints[0].1 matches SqlValue::Text(t) && t@ == e),
        None => q.constraints.len() == 0,
    }
    &&& q.limit is None
    &&& q.order == seq![("timestamp_start"@, SortOrder::Descending)]
    &&& q.group.len() == 0
}

/// The duration text of a use writes three numbers, hours, minutes and seconds, each with
/// `{:02}`, that put the duration back together: hours * 3600 + minutes * 60 + seconds is
/// `end - start`, minutes and seconds lie strictly between -60 and 60, and all three carry
/// the sign of the duration. These conditions fix the three numbers, so the text states
/// the duration exactly.
pub proof fn lemma_duration_text_recomposes(start: int, end: int) -> (parts: (int, int, int))
    ensures
        duration_text(start, end) == int_decimal_width2(parts.0) + ":"@ + int_decimal_width2(
            parts.1,
        ) + ":"@ + int_decimal_width2(parts.2),
        parts.0 * 3600 + parts.1 * 60 + parts.2 == end - start,
        -60 < parts.1 < 60,
        -60 < parts.2 < 60,
        end - start >= 0 ==> parts.0 >= 0 && parts.1 >= 0 && parts.2 >= 0,
        end - start <= 0 ==> parts.0 <= 0 && parts.1 <= 0 && parts.2 <= 0,
{
    let d = end - start;
    lemma_duration_parts_recompose(d);
    let m = if d >= 0 {
        d
    } else {
        -d
    };
    assert(m / 3600 >= 0 && m / 60 >= 0) by (nonlinear_arith)
        requires
            m >= 0,
    ;
    if d < 0 {
        assert(div_toward_zero(d, 3600) == -(m / 3600));
        assert(div_toward_zero(d, 60) == -(m / 60));
        assert(div_toward_zero(div_toward_zero(d, 60), 60) == -((m / 60) / 60));
        assert(rem_toward_zero(div_toward_zero(d, 60), 60) == -((m / 60) % 60));
        assert(rem_toward_zero(d, 60) == -(m % 60));
    } else {
        assert(rem_toward_zero(div_toward_zero(d, 60), 60) == (m / 60) % 60);
        assert(rem_toward_zero(d, 60) == m % 60);
    }
    (div_toward_zero(d, 3600), rem_toward_zero(div_toward_zero(d, 60), 60), rem_toward_zero(d, 60))
}

impl Log {
    /// A new log entry, not yet in the database.
    pub fn new(user_email: String, entry: String, timestamp_start: i64, timestamp_end: i64) -> (l:
        Log)
        ensures
            l.id is None,
            l.user_email == user_email,
            l.entry == entry,
            l.timestamp_start == timestamp_start,
            l.timestamp_end == timestamp_end,
    {
        Log { id: None, user_email, entry, timestamp_start, timestamp_end }
    }

    /// The log of a use of the laser that `user` starts at `now`: the user's email and
    /// current project, ending at 0 (still running).
    pub fn opened_by(user: &User, now: i64) -> (l: Log)
        ensures
            l.id is None,
            l.user_email == user.email,
            l.entry == user.current_project,
            l.timestamp_start == now,
            l.timestamp_end == 0,
    {
        Log::new(user.email.clone(), user.current_project.clone(), now, 0)
    }

    /// Builds a log from what was read from the columns of its row: `id`, `user_email`,
    /// `entry`, `timestamp_start` and `timestamp_end`, in this order. The first column
    /// that could not be read gives the error.
    pub fn from_columns<E>(
        id: Result<Option<i64>, E>,
        user_email: Result<String, E>,
        entry: Result<String, E>,
        timestamp_start: Result<i64, E>,
        timestamp_end: Result<i64, E>,
    ) -> (r: Result<Log, E>)
        ensures
            id matches Err(e) ==> r == Err::<Log, E>(e),
            id is Ok ==> (user_email matches Err(e) ==> r == Err::<Log, E>(e)),
            id is Ok && user_email is Ok ==> (entry matches Err(e) ==> r == Err::<Log, E>(e)),
            id is Ok && user_email is Ok && entry is Ok ==> (
                timestamp_start matches Err(e) ==> r == Err::<Log, E>(e)
            ),
            id is Ok && user_email is Ok && entry is Ok && timestamp_start is Ok ==> (
                timestamp_end matches Err(e) ==> r == Err::<Log, E>(e)
            ),
            id matches Ok(i) ==> (
                user_email matches Ok(m) ==> (
                    entry matches Ok(p) ==> (
                        timestamp_start matches Ok(s) ==> (
                            timestamp_end matches Ok(f) ==> r == Ok::<Log, E>(
                                (Log {
                                    id: i,
                                    user_email: m,
                                    entry: p,
                                    timestamp_start: s,
                                    timestamp_end: f,
                                }),
                            )
                        )
                    )
                )
            ),
    {
        let id = match id {
            Ok(v) => v,
            Err(e) => return Err(e),
        };
        let user_email = match user_email {
            Ok(v) => v,
            Err(e) => return Err(e),
        };
        let entry = match entry {
            Ok(v) => v,
            Err(e) => return Err(e),
        };
        let timestamp_start = match timestamp_start {
            Ok(v) => v,
            Err(e) => return Err(e),
        };
        let timestamp_end = match timestamp_end {
            Ok(v) => v,
            Err(e) => return Err(e),
        };
        Ok(Log { id, user_email, entry, timestamp_start, timestamp_end })
    }

    /// The logs shown in a history, newest start first: those of the user with the given
    /// email, or of every user when no email is given.
    pub fn history_query(email: Option<&str>) -> (q: Query<Log>)
        ensures
            is_history_query(
                q@,
                match email {
                    Some(e) => Some(e@),
                    None => None,
                },
            ),
    {
        let q = Log::query();
        let q = match email {
            Some(e) => q.Where("user_email", SqlValue::Text(e.to_string())),
            None => q,
        };
        let q = q.OrderBy("timestamp_start", SortOrder::Descending);
        assert(q@.order =~= seq![("timestamp_start"@, SortOrder::Descending)]);
        q
    }

    /// The length of the use as `hh:mm:ss`.
    pub fn duration_string(&self) -> (s: String)
        ensures
            s@ == duration_text(self.timestamp_start as int, self.timestamp_end as int),
    {
        let d: i128 = (self.timestamp_end as i128) - (self.timestamp_start as i128);
        let negative = d < 0;
        let m: i128 = if negative {
            -d
        } else {
            d
        };
        let hours: i128 = m / 3600;
        let minutes: i128 = (m / 60) % 60;
        let seconds: i128 = m % 60;
        let (h, mi, se) = if negative {
            (-hours, -minutes, -seconds)
        } else {
            (hours, minutes, seconds)
        };
        proof {
            let di = d as int;
            if negative {
                assert(div_toward_zero(di, 3600) == -(m / 3600));
                assert(div_toward_zero(di, 60) == -(m / 60));
                assert(div_toward_zero(div_toward_zero(di, 60), 60) == -((m / 60) / 60));
                assert(rem_toward_zero(div_toward_zero(di, 60), 60) == -((m / 60) % 60));
                assert(rem_toward_zero(di, 60) == -(m % 60));
            }
        }
        let mut s = String::new();
        push_int_decimal_width2(&mut s, h);
        s.append(":");
        push_int_decimal_width2(&mut s, mi);
        s.append(":");
        push_int_decimal_width2(&mut s, se);
        s
    }
}

impl SqlObject for Log {
    open spec fn id_of(&self) -> Option<i64> {
        self.id
    }

    open spec fn table_name() -> Seq<char> {
        "Log"@
    }

    open spec fn columns() -> Seq<(Seq<char>, SqlType)> {
        seq![
            ("user_email"@, SqlType::Text),
            ("entry"@, SqlType::Text),
            ("timestamp_start"@, SqlType::Integer),
            ("timestamp_end"@, SqlType::Integer),
        ]
    }

    open spec fn values_of(&self) -> Seq<(Seq<char>, SqlValue)> {
        seq![
            ("user_email"@, SqlValue::Text(self.user_email)),
            ("entry"@, SqlValue::Text(self.entry)),
            ("timestamp_start"@, SqlValue::Integer(self.timestamp_start)),
            ("timestamp_end"@, SqlValue::Integer(self.timestamp_end)),
        ]
    }

    fn set_id(&mut self, id: Option<i64>) {
        self.id = id;
    }

    fn get_id(&self) -> (r: Option<i64>) {
        self.id
    }

    fn get_table_name() -> (r: &'static str) {
        "Log"
    }

    fn fields_with_sqltypes() -> (r: Vec<(&'static str, SqlType)>) {
        let r = vec![
            ("user_email", <String as SqlTyped>::get_sql_type()),
            ("entry", <String as SqlTyped>::get_sql_type()),
            ("timestamp_start", <i64 as SqlTyped>::get_sql_type()),
            ("timestamp_end", <i64 as SqlTyped>::get_sql_type()),
        ];
        assert(crate::sql_object::column_types_view(r@) =~= Self::columns());
        r
    }

    fn fields_with_values(&self) -> (r: Vec<(&'static str, SqlValue)>) {
        let r = vec![
            ("user_email", SqlValue::Text(self.user_email.clone())),
            ("entry", SqlValue::Text(self.entry.clone())),
            ("timestamp_start", SqlValue::Integer(self.timestamp_start)),
            ("timestamp_end", SqlValue::Integer(self.timestamp_end)),
        ];
        assert(crate::sql_object::column_values_view(r@) =~= self.values_of());
        r
    }
}

/// Saving a stored log writes each field into the column of its name: the row with the
/// log's id gets the email in `user_email`, the project in `entry` and the two timestamps
/// in `timestamp_start` and `timestamp_end`.
pub proof fn lemma_log_save_writes_fields(l: Log, a: SaveAction)
    requires
        l.id is Some,
        save_action_is(a, Log::table_name(), l.id_of(), l.values_of()),
    ensures
        a matches SaveAction::Update(st) && st.sql@
            == "UPDATE Log SET user_email = ?, entry = ?, timestamp_start = ?, timestamp_end = ? WHERE id = ?"@
            && params_view(st.params@) == seq![
            SqlValueView::Text(l.user_email@),
            SqlValueView::Text(l.entry@),
            SqlValueView::Integer(l.timestamp_start),
            SqlValueView::Integer(l.timestamp_end),
            SqlValueView::Integer(l.id.unwrap()),
        ],
{
    reveal_strlit(
        "UPDATE Log SET user_email = ?, entry = ?, timestamp_start = ?, timestamp_end = ? WHERE id = ?",
    );
    reveal_strlit("UPDATE ");
    reveal_strlit(" SET ");
    reveal_strlit(" = ?");
    reveal_strlit(", ");
    reveal_strlit(" WHERE id = ?");
    reveal_strlit("Log");
    reveal_strlit("user_email");
    reveal_strlit("entry");
    reveal_strlit("timestamp_start");
    reveal_strlit("timestamp_end");
    let c0 = Seq::<Seq<char>>::empty();
    let c1 = c0.push("user_email"@);
    let c2 = c1.push("entry"@);
    let c3 = c2.push("timestamp_start"@);
    let c4 = c3.push("timestamp_end"@);
    assert(value_columns(l.values_of()) =~= c4);
    lemma_update_conditions(c0, "user_email"@);
    lemma_update_conditions(c1, "entry"@);
    lemma_update_conditions(c2, "timestamp_start"@);
    lemma_update_conditions(c3, "timestamp_end"@);
    if let SaveAction::Update(st) = a {
        assert(st.sql@
            =~= "UPDATE Log SET user_email = ?, entry = ?, timestamp_start = ?, timestamp_end = ? WHERE id = ?"@);
    }
}

/// The table of the log records has one column per field, in the order of the fields,
/// each with the sqlite type of the field.
pub proof fn lemma_log_table_columns(st: SqlStatement)
    requires
        statement_is(st, create_table_text(Log::table_name(), Log::columns()), Seq::empty()),
    ensures
        st.sql@ == "CREATE TABLE IF NOT EXISTS Log (id INTEGER PRIMARY KEY, user_email text, entry text, timestamp_start integer, timestamp_end integer)"@,
{
    reveal_strlit("CREATE TABLE IF NOT EXISTS Log (id INTEGER PRIMARY KEY, user_email text, entry text, timestamp_start integer, timestamp_end integer)");
    reveal_strlit("CREATE TABLE IF NOT EXISTS ");
    reveal_strlit(" (");
    reveal_strlit("id INTEGER PRIMARY KEY");
    reveal_strlit(", ");
    reveal_strlit(" ");
    reveal_strlit(")");
    reveal_strlit("Log");
    reveal_strlit("user_email");
    reveal_strlit("entry");
    reveal_strlit("timestamp_start");
    reveal_strlit("timestamp_end");
    reveal_strlit("integer");
    reveal_strlit("text");
    let d0 = Seq::<(Seq<char>, SqlType)>::empty();
    let d1 = d0.push(("user_email"@, SqlType::Text));
    assert(d1.drop_last() =~= d0);
    assert(crate::db_object::column_definitions(d1) == crate::db_object::column_definitions(
        d0,
    ) + ", "@ + "user_email"@ + " "@ + crate::sql_types::sqlite_type_name(SqlType::Text));
    let d2 = d1.push(("entry"@, SqlType::Text));
    assert(d2.drop_last() =~= d1);
    assert(crate::db_object::column_definitions(d2) == crate::db_object::column_definitions(
        d1,
    ) + ", "@ + "entry"@ + " "@ + crate::sql_types::sqlite_type_name(SqlType::Text));
    let d3 = d2.push(("timestamp_start"@, SqlType::Integer));
    assert(d3.drop_last() =~= d2);
    assert(crate::db_object::column_definitions(d3) == crate::db_object::column_definitions(
        d2,
    ) + ", "@ + "timestamp_start"@ + " "@ + crate::sql_types::sqlite_type_name(SqlType::Integer));
    let d4 = d3.push(("timestamp_end"@, SqlType::Integer));
    assert(d4.drop_last() =~= d3);
    assert(crate::db_object::column_definitions(d4) == crate::db_object::column_definitions(
        d3,
    ) + ", "@ + "timestamp_end"@ + " "@ + crate::sql_types::sqlite_type_name(SqlType::Integer));
    assert(Log::columns() =~= d4);
    assert(st.sql@ =~= "CREATE TABLE IF NOT EXISTS Log (id INTEGER PRIMARY KEY, user_email text, entry text, timestamp_start integer, timestamp_end integer)"@);
}

} // verus!
