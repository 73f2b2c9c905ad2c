use laserlogin::model::config::Config;
use laserlogin::model::log::Log;
use laserlogin::model::user::{User, Usertype};
use laserlogin::{DbObject, SaveAction, SqlObject, SqlValue};

fn count_placeholders(s: &str) -> usize {
    s.chars().filter(|c| *c == '?').count()
}

#[test]
fn create_table_statements() {
    assert_eq!(
        <User as DbObject>::initialize().sql,
        "CREATE TABLE IF NOT EXISTS User (id INTEGER PRIMARY KEY, usertype text, email text, card_hash text, current_project text)"
    );
    assert_eq!(
        <Log as DbObject>::initialize().sql,
        "CREATE TABLE IF NOT EXISTS Log (id INTEGER PRIMARY KEY, user_email text, entry text, timestamp_start integer, timestamp_end integer)"
    );
    assert_eq!(
        <Config as DbObject>::initialize().sql,
        "CREATE TABLE IF NOT EXISTS Config (id INTEGER PRIMARY KEY, name text, value text)"
    );
    assert!(<Config as DbObject>::initialize().params.is_empty());
}

#[test]
fn model_initialize_creates_three_tables() {
    let v = laserlogin::model::initialize();
    assert_eq!(v.len(), 3);
    assert!(v[0].sql.contains("User"));
    assert!(v[1].sql.contains("Log"));
    assert!(v[2].sql.contains("Config"));
}

#[test]
fn save_without_id_inserts_then_updates() {
    let mut u = User::new(Usertype::User, "a@b.de", "hash", "proj");
    match u.save() {
        SaveAction::Insert(st) => {
            assert_eq!(st.sql, "INSERT INTO User DEFAULT VALUES");
            assert!(st.params.is_empty());
        }
        SaveAction::Update(_) => panic!("a record without id is inserted"),
    }
    u.set_id(Some(7));
    match u.save() {
        SaveAction::Update(st) => {
            assert_eq!(
                st.sql,
                "UPDATE User SET usertype = ?, email = ?, card_hash = ?, current_project = ? WHERE id = ?"
            );
            assert_eq!(
                st.params,
                vec![
                    SqlValue::Text("User".to_string()),
                    SqlValue::Text("a@b.de".to_string()),
                    SqlValue::Text("hash".to_string()),
                    SqlValue::Text("proj".to_string()),
                    SqlValue::Integer(7)
                ]
            );
            assert_eq!(count_placeholders(&st.sql), st.params.len());
        }
        SaveAction::Insert(_) => panic!("a record with id is updated"),
    }
}

#[test]
fn save_log_update_with_integers() {
    let mut l = Log::new("e".to_string(), "p".to_string(), 10, 20);
    l.set_id(Some(1));
    match l.save() {
        SaveAction::Update(st) => {
            assert_eq!(
                st.sql,
                "UPDATE Log SET user_email = ?, entry = ?, timestamp_start = ?, timestamp_end = ? WHERE id = ?"
            );
            assert_eq!(
                st.params,
                vec![
                    SqlValue::Text("e".to_string()),
                    SqlValue::Text("p".to_string()),
                    SqlValue::Integer(10),
                    SqlValue::Integer(20),
                    SqlValue::Integer(1)
                ]
            );
        }
        SaveAction::Insert(_) => panic!("a record with id is updated"),
    }
}

#[test]
fn delete_needs_an_id() {
    let mut c = Config::new("salt", "abc");
    assert!(c.delete().is_none());
    c.set_id(Some(4));
    let st = c.delete().unwrap();
    assert_eq!(st.sql, "DELETE FROM Config WHERE id = ?");
    assert_eq!(st.params, vec![SqlValue::Integer(4)]);
    c.set_id(None);
    assert!(c.delete().is_none());
}

#[test]
fn fields_leave_out_the_id() {
    let names: Vec<&str> = User::fields_with_sqltypes().iter().map(|p| p.0).collect();
    assert_eq!(names, vec!["usertype", "email", "card_hash", "current_project"]);
    assert_eq!(User::get_table_name(), "User");
    assert_eq!(Log::get_table_name(), "Log");
    assert_eq!(Config::get_table_name(), "Config");
}

#[test]
fn inserted_then_deleted() {
    let mut c = Config::new("salt", "abc");
    assert!(matches!(c.save(), SaveAction::Insert(_)));
    c.inserted(12);
    assert_eq!(c.id, Some(12));
    assert_eq!(c.value, "abc");
    match c.save() {
        SaveAction::Update(st) => assert_eq!(st.params.last(), Some(&SqlValue::Integer(12))),
        SaveAction::Insert(_) => panic!("a stored record is updated"),
    }
    let st = c.delete().unwrap();
    assert_eq!(st.params, vec![SqlValue::Integer(12)]);
    c.deleted();
    assert_eq!(c.id, None);
    assert_eq!(c.name, "salt");
    assert!(c.delete().is_none());
    assert!(matches!(c.save(), SaveAction::Insert(_)));
}
