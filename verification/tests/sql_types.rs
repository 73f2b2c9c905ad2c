use laserlogin::{SqlType, SqlTyped};

struct Unmapped;

impl SqlTyped for Unmapped {}

#[test]
fn from_str_reads_each_type_name() {
    assert_eq!(SqlType::from_str("integer"), SqlType::Integer);
    assert_eq!(SqlType::from_str("real"), SqlType::Real);
    assert_eq!(SqlType::from_str("blob"), SqlType::Blob);
    assert_eq!(SqlType::from_str("text"), SqlType::Text);
    assert_eq!(SqlType::from_str("foreign"), SqlType::Foreign);
}

#[test]
fn from_str_ignores_case() {
    assert_eq!(SqlType::from_str("INTEGER"), SqlType::Integer);
    assert_eq!(SqlType::from_str("Text"), SqlType::Text);
    assert_eq!(SqlType::from_str("bLoB"), SqlType::Blob);
}

#[test]
fn from_str_unknown_names() {
    assert_eq!(SqlType::from_str("varchar"), SqlType::Unknown);
    assert_eq!(SqlType::from_str(""), SqlType::Unknown);
    assert_eq!(SqlType::from_str("unknown"), SqlType::Unknown);
    assert_eq!(SqlType::from_str(" integer"), SqlType::Unknown);
}

#[test]
fn to_str_round_trips() {
    for t in [
        SqlType::Integer,
        SqlType::Real,
        SqlType::Blob,
        SqlType::Text,
        SqlType::Foreign,
        SqlType::Unknown,
    ] {
        assert_eq!(SqlType::from_str(t.to_str()), t);
    }
    assert_eq!(SqlType::Foreign.to_str(), "foreign");
    assert_eq!(SqlType::Unknown.to_str(), "unknown");
}

#[test]
fn to_sqlite_str_stores_foreign_keys_as_integers() {
    assert_eq!(SqlType::Foreign.to_sqlite_str(), "integer");
    assert_eq!(SqlType::Integer.to_sqlite_str(), "integer");
    assert_eq!(SqlType::Real.to_sqlite_str(), "real");
    assert_eq!(SqlType::Blob.to_sqlite_str(), "blob");
    assert_eq!(SqlType::Text.to_sqlite_str(), "text");
    assert_eq!(SqlType::Unknown.to_sqlite_str(), "unknown");
}

#[test]
fn sql_typed_rust_types() {
    assert_eq!(<i8 as SqlTyped>::get_sql_type(), SqlType::Integer);
    assert_eq!(<u64 as SqlTyped>::get_sql_type(), SqlType::Integer);
    assert_eq!(<i64 as SqlTyped>::get_sql_type(), SqlType::Integer);
    assert_eq!(<String as SqlTyped>::get_sql_type(), SqlType::Text);
    assert_eq!(<&str as SqlTyped>::get_sql_type(), SqlType::Text);
    assert_eq!(<Vec<u8> as SqlTyped>::get_sql_type(), SqlType::Blob);
    assert_eq!(<&[u8] as SqlTyped>::get_sql_type(), SqlType::Blob);
    assert_eq!(<Unmapped as SqlTyped>::get_sql_type(), SqlType::Unknown);
}
