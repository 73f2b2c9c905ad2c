use vstd::prelude::*;

use crate::db_object::{
    create_table_text,
    delete_text,
    insert_text,
    update_text,
    value_columns,
    value_params,
};
use crate::query::{
    condition_text,
    constraint_columns,
    direction_text,
    group_text,
    joined,
    limit_text,
    order_text,
    query_params,
    query_text,
    select_text,
    sort_key_text,
    SortOrder,
    where_text,
    QueryView,
};
use crate::sql_types::{sqlite_type_name, SqlType};
use crate::sql_value::SqlValue;
use crate::text::{digit_char, int_decimal, nat_digits};

verus! {

/// The number of `?` placeholders in an sql text.
pub open spec fn placeholder_count(s: Seq<char>) -> nat
    decreases s.len(),
{
    if s.len() == 0 {
        0
    } else {
        placeholder_count(s.drop_last()) + if s.last() == '?' {
            1nat
        } else {
            0nat
        }
    }
}

/// Whether a name holds no `?`.
pub open spec fn free_of_placeholders(s: Seq<char>) -> bool {
    forall|i: int| 0 <= i < s.len() ==> #[trigger] s[i] != '?'
}

/// Placeholders of a concatenation add up.
pub proof fn lemma_count_add(a: Seq<char>, b: Seq<char>)
    ensures
        placeholder_count(a + b) == placeholder_count(a) + placeholder_count(b),
    decreases b.len(),
{
    if b.len() == 0 {
        assert(a + b =~= a);
    } else {
        lemma_count_add(a, b.drop_last());
        assert((a + b).drop_last() =~= a + b.drop_last());
    }
}

/// A text without `?` has no placeholders.
pub proof fn lemma_count_free(s: Seq<char>)
    requires
        free_of_placeholders(s),
    ensures
        placeholder_count(s) == 0,
    decreases s.len(),
{
    if s.len() > 0 {
        assert(free_of_placeholders(s.drop_last()));
        lemma_count_free(s.drop_last());
    }
}

/// Items with `k` placeholders each, joined by a separator without any, have `k` times
/// as many placeholders as there are items.
pub proof fn lemma_count_joined(items: Seq<Seq<char>>, sep: Seq<char>, k: nat)
    requires
        placeholder_count(sep) == 0,
        forall|i: int| 0 <= i < items.len() ==> placeholder_count(#[trigger] items[i]) == k,
    ensures
        placeholder_count(joined(items, sep)) == k * items.len(),
    decreases items.len(),
{
    if items.len() == 1 {
        assert(placeholder_count(items[0]) == k);
    } else if items.len() > 1 {
        let rest = items.drop_last();
        assert forall|i: int| 0 <= i < rest.len() implies placeholder_count(#[trigger] rest[i])
            == k by {
            assert(rest[i] == items[i]);
        }
        lemma_count_joined(rest, sep, k);
        lemma_count_add(joined(rest, sep), sep);
        lemma_count_add(joined(rest, sep) + sep, items.last());
        assert(placeholder_count(items.last()) == k);
        let n = items.len() as int;
        assert(k * (n - 1) + k == k * n) by (nonlinear_arith);
    }
}

/// The decimal text of a number has no placeholders.
pub proof fn lemma_digits_free(n: nat)
    ensures
        free_of_placeholders(nat_digits(n)),
    decreases n,
{
    if n >= 10 {
        lemma_digits_free(n / 10);
        let d = nat_digits(n / 10);
        assert forall|i: int| 0 <= i < nat_digits(n).len() implies #[trigger] nat_digits(n)[i]
            != '?' by {
            if i < d.len() {
                assert(nat_digits(n)[i] == d[i]);
            } else {
                assert(nat_digits(n)[i] == digit_char(n % 10));
            }
        }
    }
}

proof fn lemma_int_decimal_free(n: int)
    ensures
        placeholder_count(int_decimal(n)) == 0,
{
    if n < 0 {
        lemma_digits_free((-n) as nat);
        let s = seq!['-'] + nat_digits((-n) as nat);
        assert(free_of_placeholders(s)) by {
            assert forall|i: int| 0 <= i < s.len() implies #[trigger] s[i] != '?' by {
                if i > 0 {
                    assert(s[i] == nat_digits((-n) as nat)[i - 1]);
                }
            }
        }
        lemma_count_free(s);
    } else {
        lemma_digits_free(n as nat);
        lemma_count_free(nat_digits(n as nat));
    }
}

/// Whether a query names no table or column that holds a `?`.
pub open spec fn names_free_of_placeholders(table: Seq<char>, q: QueryView) -> bool {
    &&& free_of_placeholders(table)
    &&& forall|i: int|
        0 <= i < q.constraints.len() ==> free_of_placeholders(#[trigger] q.constraints[i].0)
    &&& forall|i: int| 0 <= i < q.order.len() ==> free_of_placeholders(#[trigger] q.order[i].0)
    &&& forall|i: int| 0 <= i < q.group.len() ==> free_of_placeholders(#[trigger] q.group[i])
}

/// Every parameter of a query fills one `?` of its sql text: the text holds exactly as
/// many placeholders as the query has parameters, as long as no table or column name holds
/// a `?`.
pub proof fn lemma_query_placeholders_match_params(table: Seq<char>, q: QueryView)
    requires
        names_free_of_placeholders(table, q),
    ensures
        placeholder_count(query_text(table, q)) == query_params(q).len(),
{
    reveal_strlit("SELECT * FROM ");
    reveal_strlit(" ");
    reveal_strlit(" WHERE ");
    reveal_strlit(" = ?");
    reveal_strlit(" AND ");
    reveal_strlit(" ORDER BY ");
    reveal_strlit(", ");
    reveal_strlit("ASC");
    reveal_strlit("DESC");
    reveal_strlit(" GROUP BY ");
    reveal_strlit(" LIMIT ");
    lemma_count_free("SELECT * FROM "@);
    lemma_count_free(" "@);
    lemma_count_free(" WHERE "@);
    lemma_count_free(" AND "@);
    lemma_count_free(" ORDER BY "@);
    lemma_count_free(", "@);
    lemma_count_free("ASC"@);
    lemma_count_free("DESC"@);
    lemma_count_free(" GROUP BY "@);
    lemma_count_free(" LIMIT "@);
    assert(placeholder_count(" = ?"@) == 1) by {
        reveal_strlit(" = ");
        assert(" = ?"@.drop_last() =~= " = "@);
        lemma_count_free(" = "@);
    }
    // select
    lemma_count_free(table);
    lemma_count_add("SELECT * FROM "@, table);
    let sel = select_text(table);
    // where
    let cols = constraint_columns(q);
    let w = where_text(cols);
    if cols.len() > 0 {
        let terms = cols.map_values(|c: Seq<char>| condition_text(c));
        assert forall|i: int| 0 <= i < terms.len() implies placeholder_count(#[trigger] terms[i])
            == 1 by {
            lemma_count_free(cols[i]);
            lemma_count_add(cols[i], " = ?"@);
        }
        lemma_count_joined(terms, " AND "@, 1);
        lemma_count_add(" WHERE "@, joined(terms, " AND "@));
    }
    assert(placeholder_count(w) == query_params(q).len());
    // group
    let g = group_text(q.group);
    if q.group.len() > 0 {
        assert forall|i: int| 0 <= i < q.group.len() implies placeholder_count(
            #[trigger] q.group[i],
        ) == 0 by {
            lemma_count_free(q.group[i]);
        }
        lemma_count_joined(q.group, ", "@, 0);
        lemma_count_add(" GROUP BY "@, joined(q.group, ", "@));
    }
    assert(placeholder_count(g) == 0);
    // order
    let o = order_text(q.order);
    if q.order.len() > 0 {
        let keys = q.order.map_values(|k: (Seq<char>, SortOrder)| sort_key_text(k));
        assert forall|i: int| 0 <= i < keys.len() implies placeholder_count(#[trigger] keys[i])
            == 0 by {
            let k = q.order[i];
            lemma_count_free(k.0);
            lemma_count_add(k.0, " "@);
            lemma_count_add(k.0 + " "@, direction_text(k.1));
        }
        lemma_count_joined(keys, ", "@, 0);
        lemma_count_add(" ORDER BY "@, joined(keys, ", "@));
    }
    assert(placeholder_count(o) == 0);
    // limit
    let l = limit_text(q.limit);
    if let Some(n) = q.limit {
        lemma_int_decimal_free(n as int);
        lemma_count_add(" LIMIT "@, int_decimal(n as int));
    }
    assert(placeholder_count(l) == 0);
    // the whole text
    lemma_count_add(sel, " "@);
    lemma_count_add(sel + " "@, w);
    lemma_count_add(sel + " "@ + w, " "@);
    lemma_count_add(sel + " "@ + w + " "@, g);
    lemma_count_add(sel + " "@ + w + " "@ + g, " "@);
    lemma_count_add(sel + " "@ + w + " "@ + g + " "@, o);
    lemma_count_add(sel + " "@ + w + " "@ + g + " "@ + o, " "@);
    lemma_count_add(sel + " "@ + w + " "@ + g + " "@ + o + " "@, l);
}


/// Every parameter of a save, insert or delete fills one `?` of its sql text: an update
/// has one placeholder per field and one for the id, an insert has none, a delete has one
/// for the id, and creating a table has none; as long as no table or column name holds a
/// `?`.
pub proof fn lemma_record_placeholders_match_params(
    table: Seq<char>,
    values: Seq<(Seq<char>, SqlValue)>,
    columns: Seq<(Seq<char>, SqlType)>,
)
    requires
        free_of_placeholders(table),
        forall|i: int| 0 <= i < values.len() ==> free_of_placeholders(#[trigger] values[i].0),
        forall|i: int| 0 <= i < columns.len() ==> free_of_placeholders(#[trigger] columns[i].0),
    ensures
        placeholder_count(update_text(table, value_columns(values))) == value_params(values).len()
            + 1,
        placeholder_count(insert_text(table)) == 0,
        placeholder_count(delete_text(table)) == 1,
        placeholder_count(create_table_text(table, columns)) == 0,
{
    reveal_strlit("UPDATE ");
    reveal_strlit(" SET ");
    reveal_strlit(" = ?");
    reveal_strlit(" = ");
    reveal_strlit(", ");
    reveal_strlit(" WHERE id = ?");
    reveal_strlit(" WHERE id = ");
    reveal_strlit("INSERT INTO ");
    reveal_strlit(" DEFAULT VALUES");
    reveal_strlit("DELETE FROM ");
    lemma_count_free("UPDATE "@);
    lemma_count_free(" SET "@);
    lemma_count_free(", "@);
    lemma_count_free(" = "@);
    lemma_count_free(" WHERE id = "@);
    lemma_count_free("INSERT INTO "@);
    lemma_count_free(" DEFAULT VALUES"@);
    lemma_count_free("DELETE FROM "@);
    assert(" = ?"@.drop_last() =~= " = "@);
    assert(placeholder_count(" = ?"@) == 1);
    assert(" WHERE id = ?"@.drop_last() =~= " WHERE id = "@);
    assert(placeholder_count(" WHERE id = ?"@) == 1);
    lemma_count_free(table);
    // update
    let cols = value_columns(values);
    let terms = cols.map_values(|c: Seq<char>| condition_text(c));
    assert forall|i: int| 0 <= i < terms.len() implies placeholder_count(#[trigger] terms[i])
        == 1 by {
        lemma_count_free(cols[i]);
        lemma_count_add(cols[i], " = ?"@);
    }
    lemma_count_joined(terms, ", "@, 1);
    lemma_count_add("UPDATE "@, table);
    lemma_count_add("UPDATE "@ + table, " SET "@);
    lemma_count_add("UPDATE "@ + table + " SET "@, joined(terms, ", "@));
    lemma_count_add("UPDATE "@ + table + " SET "@ + joined(terms, ", "@), " WHERE id = ?"@);
    // insert
    lemma_count_add("INSERT INTO "@, table);
    lemma_count_add("INSERT INTO "@ + table, " DEFAULT VALUES"@);
    // delete
    lemma_count_add("DELETE FROM "@, table);
    lemma_count_add("DELETE FROM "@ + table, " WHERE id = ?"@);
    // create
    lemma_create_table_free(table, columns);
}

proof fn lemma_column_definitions_free(columns: Seq<(Seq<char>, SqlType)>)
    requires
        forall|i: int| 0 <= i < columns.len() ==> free_of_placeholders(#[trigger] columns[i].0),
    ensures
        placeholder_count(crate::db_object::column_definitions(columns)) == 0,
    decreases columns.len(),
{
    if columns.len() > 0 {
        let rest = columns.drop_last();
        assert forall|i: int| 0 <= i < rest.len() implies free_of_placeholders(
            #[trigger] rest[i].0,
        ) by {
            assert(rest[i] == columns[i]);
        }
        lemma_column_definitions_free(rest);
        reveal_strlit(", ");
        reveal_strlit(" ");
        reveal_strlit("integer");
        reveal_strlit("real");
        reveal_strlit("blob");
        reveal_strlit("text");
        reveal_strlit("unknown");
        lemma_count_free(", "@);
        lemma_count_free(" "@);
        let last = columns.last();
        assert(free_of_placeholders(columns[columns.len() - 1].0));
        lemma_count_free(last.0);
        let t = sqlite_type_name(last.1);
        assert(free_of_placeholders(t));
        lemma_count_free(t);
        let d = crate::db_object::column_definitions(rest);
        lemma_count_add(d, ", "@);
        lemma_count_add(d + ", "@, last.0);
        lemma_count_add(d + ", "@ + last.0, " "@);
        lemma_count_add(d + ", "@ + last.0 + " "@, t);
    }
}

proof fn lemma_create_table_free(table: Seq<char>, columns: Seq<(Seq<char>, SqlType)>)
    requires
        free_of_placeholders(table),
        forall|i: int| 0 <= i < columns.len() ==> free_of_placeholders(#[trigger] columns[i].0),
    ensures
        placeholder_count(create_table_text(table, columns)) == 0,
{
    reveal_strlit("CREATE TABLE IF NOT EXISTS ");
    reveal_strlit(" (");
    reveal_strlit("id INTEGER PRIMARY KEY");
    reveal_strlit(")");
    lemma_count_free("CREATE TABLE IF NOT EXISTS "@);
    lemma_count_free(" ("@);
    lemma_count_free("id INTEGER PRIMARY KEY"@);
    lemma_count_free(")"@);
    lemma_count_free(table);
    lemma_column_definitions_free(columns);
    let d = crate::db_object::column_definitions(columns);
    lemma_count_add("CREATE TABLE IF NOT EXISTS "@, table);
    lemma_count_add("CREATE TABLE IF NOT EXISTS "@ + table, " ("@);
    lemma_count_add("CREATE TABLE IF NOT EXISTS "@ + table + " ("@, "id INTEGER PRIMARY KEY"@);
    lemma_count_add("CREATE TABLE IF NOT EXISTS "@ + table + " ("@ + "id INTEGER PRIMARY KEY"@, d);
    lemma_count_add(
        "CREATE TABLE IF NOT EXISTS "@ + table + " ("@ + "id INTEGER PRIMARY KEY"@ + d,
        ")"@,
    );
}

} // verus!
