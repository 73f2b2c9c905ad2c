use vstd::prelude::*;

use crate::text::{all_ascii, ascii_lowercase, str_equal, str_to_lowercase, unicode_lowercase};

verus! {

/// Standard datatypes for sqlite columns.
#[derive(Clone, Copy, Debug, PartialEq, Eq, Structural)]
pub enum SqlType {
    Integer,
    Real,
    Blob,
    Text,
    Foreign,
    Unknown,
}

/// The type-string of each column type.
pub open spec fn column_type_name(t: SqlType) -> Seq<char> {
    match t {
        SqlType::Integer => "integer"@,
        SqlType::Real => "real"@,
        SqlType::Blob => "blob"@,
        SqlType::Text => "text"@,
        SqlType::Foreign => "foreign"@,
        SqlType::Unknown => "unknown"@,
    }
}

/// The column type that sqlite is given for each type: a foreign key is stored as an integer.
pub open spec fn sqlite_type_name(t: SqlType) -> Seq<char> {
    match t {
        SqlType::Foreign => "integer"@,
        _ => column_type_name(t),
    }
}

/// The type named by an already lowercased type-string; any other string is `Unknown`.
pub open spec fn type_from_lowercase(l: Seq<char>) -> SqlType {
    if l == "integer"@ {
        SqlType::Integer
    } else if l == "real"@ {
        SqlType::Real
    } else if l == "blob"@ {
        SqlType::Blob
    } else if l == "text"@ {
        SqlType::Text
    } else if l == "foreign"@ {
        SqlType::Foreign
    } else {
        SqlType::Unknown
    }
}

/// The type that `SqlType::from_str` reads from a type-string of any case.
pub open spec fn type_from_name(s: Seq<char>) -> SqlType {
    type_from_lowercase(unicode_lowercase(s))
}

impl SqlType {
    /// Reads a type from its type-string, ignoring case; an unknown name gives `Unknown`.
    pub fn from_str(typename: &str) -> (t: SqlType)
        ensures
            t == type_from_name(typename@),
            all_ascii(typename@) ==> t == type_from_lowercase(ascii_lowercase(typename@)),
    {
        let lower = str_to_lowercase(typename);
        Self::from_lowercase(lower.as_str())
    }

    /// Reads a type from a type-string that is already lowercase.
    pub fn from_lowercase(lower: &str) -> (t: SqlType)
        ensures
            t == type_from_lowercase(lower@),
    {
        if str_equal(lower, "integer") {
            SqlType::Integer
        } else if str_equal(lower, "real") {
            SqlType::Real
        } else if str_equal(lower, "blob") {
            SqlType::Blob
        } else if str_equal(lower, "text") {
            SqlType::Text
        } else if str_equal(lower, "foreign") {
            SqlType::Foreign
        } else {
            SqlType::Unknown
        }
    }

    /// Returns a type-string from an SqlType.
    pub fn to_str(&self) -> (s: &'static str)
        ensures
            s@ == column_type_name(*self),
    {
        match self {
            SqlType::Integer => "integer",
            SqlType::Real => "real",
            SqlType::Blob => "blob",
            SqlType::Text => "text",
            SqlType::Foreign => "foreign",
            SqlType::Unknown => "unknown",
        }
    }

    /// Returns a type-string that sqlite takes directly as a column type.
    pub fn to_sqlite_str(&self) -> (s: &'static str)
        ensures
            s@ == sqlite_type_name(*self),
    {
        match self {
            SqlType::Integer => "integer",
            SqlType::Real => "real",
            SqlType::Blob => "blob",
            SqlType::Text => "text",
            SqlType::Foreign => "integer",
            SqlType::Unknown => "unknown",
        }
    }
}

/// Reading the type-string of any type gives that type back: the string is ASCII, so
/// `from_str` reads it through its ASCII lowercase, which is the string itself.
pub proof fn lemma_type_name_round_trip(t: SqlType)
    ensures
        all_ascii(column_type_name(t)),
        type_from_lowercase(ascii_lowercase(column_type_name(t))) == t,
{
    reveal_strlit("integer");
    reveal_strlit("real");
    reveal_strlit("blob");
    reveal_strlit("text");
    reveal_strlit("foreign");
    reveal_strlit("unknown");
    let n = column_type_name(t);
    assert(ascii_lowercase(n) =~= n);
    assert("integer"@[0] == 'i' && "real"@[0] == 'r' && "blob"@[0] == 'b');
    assert("text"@[0] == 't' && "foreign"@[0] == 'f' && "unknown"@[0] == 'u');
}

/// The sqlite column type of every type but `Foreign` is its own type-string, and a
/// foreign key is stored as an integer column.
pub proof fn lemma_sqlite_name(t: SqlType)
    ensures
        t != SqlType::Foreign ==> sqlite_type_name(t) == column_type_name(t),
        sqlite_type_name(SqlType::Foreign) == column_type_name(SqlType::Integer),
{
}

/// For ASCII text, `from_str` ignores case: a name reads as the same type as its
/// lowercase form (which is ASCII too).
pub proof fn lemma_from_str_ignores_ascii_case(a: Seq<char>)
    requires
        all_ascii(a),
    ensures
        all_ascii(ascii_lowercase(a)),
        type_from_lowercase(ascii_lowercase(ascii_lowercase(a))) == type_from_lowercase(
            ascii_lowercase(a),
        ),
{
    let l = ascii_lowercase(a);
    assert forall|i: int| 0 <= i < l.len() implies (#[trigger] l[i] as int) < 128 by {
        assert(l[i] == crate::text::ascii_lower_char(a[i]));
    }
    assert(ascii_lowercase(l) =~= l);
}

/// Trait that gives a fitting sql column type for a Rust type. Types without a fitting
/// column type keep the default, `Unknown`.
pub trait SqlTyped {
    fn get_sql_type() -> (t: SqlType)
        default_ensures
            t == SqlType::Unknown,
    {
        SqlType::Unknown
    }
}

impl SqlTyped for i8 {
    fn get_sql_type() -> (t: SqlType)
        ensures
            t == SqlType::Integer,
    {
        SqlType::Integer
    }
}

impl SqlTyped for i16 {
    fn get_sql_type() -> (t: SqlType)
        ensures
            t == SqlType::Integer,
    {
        SqlType::Integer
    }
}

impl SqlTyped for i32 {
    fn get_sql_type() -> (t: SqlType)
        ensures
            t == SqlType::Integer,
    {
        SqlType::Integer
    }
}

impl SqlTyped for i64 {
    fn get_sql_type() -> (t: SqlType)
        ensures
            t == SqlType::Integer,
    {
        SqlType::Integer
    }
}

impl SqlTyped for u8 {
    fn get_sql_type() -> (t: SqlType)
        ensures
            t == SqlType::Integer,
    {
        SqlType::Integer
    }
}

impl SqlTyped for u16 {
    fn get_sql_type() -> (t: SqlType)
        ensures
            t == SqlType::Integer,
    {
        SqlType::Integer
    }
}

impl SqlTyped for u32 {
    fn get_sql_type() -> (t: SqlType)
        ensures
            t == SqlType::Integer,
    {
        SqlType::Integer
    }
}

impl SqlTyped for u64 {
    fn get_sql_type() -> (t: SqlType)
        ensures
            t == SqlType::Integer,
    {
        SqlType::Integer
    }
}

impl SqlTyped for String {
    fn get_sql_type() -> (t: SqlType)
        ensures
            t == SqlType::Text,
    {
        SqlType::Text
    }
}

impl SqlTyped for &str {
    fn get_sql_type() -> (t: SqlType)
        ensures
            t == SqlType::Text,
    {
        SqlType::Text
    }
}

impl SqlTyped for Vec<u8> {
    fn get_sql_type() -> (t: SqlType)
        ensures
            t == SqlType::Blob,
    {
        SqlType::Blob
    }
}

impl SqlTyped for &[u8] {
    fn get_sql_type() -> (t: SqlType)
        ensures
            t == SqlType::Blob,
    {
        SqlType::Blob
    }
}

} // verus!
