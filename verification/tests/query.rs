use laserlogin::model::log::Log;
use laserlogin::model::user::User;
use laserlogin::{DbObject, SortOrder, SqlValue};

fn count_placeholders(s: &str) -> usize {
    s.chars().filter(|c| *c == '?').count()
}

#[test]
fn query_without_parts() {
    let q = User::query();
    assert_eq!(q.sql(), "SELECT * FROM User    ");
    assert!(q.params().is_empty());
}

#[test]
fn query_of_user_logs() {
    let q = Log::query()
        .Where("user_email", SqlValue::Text("a@b.de".to_string()))
        .OrderBy("timestamp_start", SortOrder::Descending);
    assert_eq!(
        q.sql(),
        "SELECT * FROM Log  WHERE user_email = ?   ORDER BY timestamp_start DESC "
    );
    assert_eq!(q.params(), vec![SqlValue::Text("a@b.de".to_string())]);
}

#[test]
fn query_with_every_part() {
    let q = Log::query()
        .Where("user_email", SqlValue::Text("x".to_string()))
        .Where("timestamp_end", SqlValue::Integer(0))
        .GroupBy("entry")
        .GroupBy("user_email")
        .OrderBy("timestamp_start", SortOrder::Ascending)
        .OrderBy("timestamp_end", SortOrder::Descending)
        .Limit(10);
    assert_eq!(
        q.sql(),
        "SELECT * FROM Log  WHERE user_email = ? AND timestamp_end = ?  GROUP BY entry, user_email  ORDER BY timestamp_start ASC, timestamp_end DESC  LIMIT 10"
    );
    assert_eq!(
        q.params(),
        vec![SqlValue::Text("x".to_string()), SqlValue::Integer(0)]
    );
    let st = q.statement();
    assert_eq!(count_placeholders(&st.sql), st.params.len());
}

#[test]
fn later_limit_replaces_earlier_one() {
    let q = User::query().Limit(5).Limit(-3);
    assert_eq!(q.sql(), "SELECT * FROM User     LIMIT -3");
}

#[test]
fn limit_of_extreme_values() {
    assert_eq!(
        User::query().Limit(i64::MIN).sql(),
        "SELECT * FROM User     LIMIT -9223372036854775808"
    );
    assert_eq!(
        User::query().Limit(0).sql(),
        "SELECT * FROM User     LIMIT 0"
    );
}

#[test]
fn statement_has_one_param_per_placeholder() {
    let q = User::query()
        .Where("id", SqlValue::Integer(3))
        .Where("email", SqlValue::Text("e".to_string()))
        .Where("card_hash", SqlValue::Null);
    let st = q.statement();
    assert_eq!(count_placeholders(&st.sql), 3);
    assert_eq!(
        st.params,
        vec![
            SqlValue::Integer(3),
            SqlValue::Text("e".to_string()),
            SqlValue::Null
        ]
    );
}

#[test]
fn blob_constraint() {
    let q = User::query().Where("card_hash", SqlValue::Blob(vec![1, 2, 255]));
    assert_eq!(q.sql(), "SELECT * FROM User  WHERE card_hash = ?   ");
    assert_eq!(q.params(), vec![SqlValue::Blob(vec![1, 2, 255])]);
    let st = q.statement();
    assert_eq!(st.params, vec![SqlValue::Blob(vec![1, 2, 255])]);
    assert_eq!(SqlValue::Blob(vec![7]).clone(), SqlValue::Blob(vec![7]));
}
