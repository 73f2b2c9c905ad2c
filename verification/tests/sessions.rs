use laserlogin::model::log::Log;
use laserlogin::model::user::{User, Usertype};
use laserlogin::model::{unlocked_message, LaserError, LockStep, LoginError, Persistance};
use laserlogin::{Persistence, PersistenceError, SqlValue};

fn stored_user(id: i64, role: Usertype, email: &str, card: &str) -> User {
    let mut u = User::new(role, email, card, "project");
    u.id = Some(id);
    u
}

fn fresh() -> Persistance {
    Persistance::new(Persistence::new())
}

fn is_uuid(t: &str) -> bool {
    t.len() == 36
        && t.chars().enumerate().all(|(i, c)| {
            if i == 8 || i == 13 || i == 18 || i == 23 {
                c == '-'
            } else {
                c.is_ascii_digit() || ('a'..='f').contains(&c)
            }
        })
}

#[test]
fn login_then_lookup() {
    let mut p = fresh();
    let token = p
        .log_in(Some(stored_user(5, Usertype::Admin, "a@b.de", "c")), Some(200))
        .unwrap();
    assert!(is_uuid(&token));
    assert_eq!(p.get_user_role(&token), Some(Usertype::Admin));
    assert_eq!(p.get_user_id(&token), Some(5));
    assert_eq!(p.get_user_role("other"), None);
    assert_eq!(p.get_user_id("other"), None);
}

#[test]
fn two_logins_get_different_tokens() {
    let mut p = fresh();
    let t1 = p.log_in(Some(stored_user(1, Usertype::User, "a", "c")), Some(200)).unwrap();
    let t2 = p.log_in(Some(stored_user(2, Usertype::Admin, "b", "d")), Some(200)).unwrap();
    assert_ne!(t1, t2);
    assert_eq!(p.get_user_id(&t1), Some(1));
    assert_eq!(p.get_user_role(&t1), Some(Usertype::User));
    assert_eq!(p.get_user_id(&t2), Some(2));
}

#[test]
fn login_of_unknown_user() {
    let mut p = fresh();
    let r = p.log_in(None, Some(200));
    assert_eq!(r, Err(LoginError::UsernameNotFound));
    assert_eq!(p.log_in(None, Some(401)), Err(LoginError::UsernameNotFound));
    assert_eq!(LoginError::UsernameNotFound.message(), "Username not found");
    assert_eq!(LoginError::PasswordIncorrect.message(), "Password incorrect");
}

#[test]
fn logout_removes_the_session() {
    let mut p = fresh();
    let t = p.log_in(Some(stored_user(9, Usertype::User, "a", "c")), Some(200)).unwrap();
    assert!(p.log_out(&t).is_ok());
    assert_eq!(p.get_user_role(&t), None);
    assert_eq!(p.get_user_id(&t), None);
    let again = p.log_out(&t);
    assert!(again.is_err());
    assert_eq!(again.unwrap_err().message(), "Error aquiring lock");
}

#[test]
fn login_query_looks_up_email() {
    let q = Persistance::login_query("a@b.de");
    assert_eq!(q.sql(), "SELECT * FROM User  WHERE email = ?   ");
    assert_eq!(q.params(), vec![SqlValue::Text("a@b.de".to_string())]);
}

#[test]
fn request_guards() {
    let mut p = fresh();
    let t = p.log_in(Some(stored_user(4, Usertype::Admin, "a", "c")), Some(200)).unwrap();
    assert_eq!(p.role_for_request(Some(&t)), Some(Usertype::Admin));
    assert_eq!(p.role_for_request(Some("nope")), None);
    assert_eq!(p.role_for_request(None), None);
    let q = p.user_query_for_request(Some(&t)).unwrap();
    assert_eq!(q.sql(), "SELECT * FROM User  WHERE id = ?   ");
    assert_eq!(q.params(), vec![SqlValue::Integer(4)]);
    assert!(p.user_query_for_request(Some("nope")).is_none());
    assert!(p.user_query_for_request(None).is_none());
}

#[test]
fn logon_redirect_rules() {
    let mut p = fresh();
    let t = p.log_in(Some(stored_user(4, Usertype::User, "a", "c")), Some(200)).unwrap();
    assert_eq!(p.logon_redirect("/logs", true, None), Some("/logs".to_string()));
    assert_eq!(p.logon_redirect("/logs", true, Some("stale")), Some("/logs".to_string()));
    assert_eq!(p.logon_redirect("/logs", true, Some(&t)), None);
    assert_eq!(p.logon_redirect("/logs", false, None), None);
    assert_eq!(p.logon_redirect("/", true, None), None);
}

#[test]
fn login_refused_by_the_webdav_server() {
    let mut p = fresh();
    let u = stored_user(3, Usertype::User, "a@b.de", "c");
    assert_eq!(p.log_in(Some(u.clone()), Some(401)), Err(LoginError::PasswordIncorrect));
    assert_eq!(p.log_in(Some(u.clone()), Some(500)), Err(LoginError::PasswordIncorrect));
    assert_eq!(p.log_in(Some(u), None), Err(LoginError::PasswordIncorrect));
    assert_eq!(p.get_user_id("a@b.de"), None);
}

#[test]
fn login_token_is_version_4() {
    let mut p = fresh();
    let t = p.log_in(Some(stored_user(2, Usertype::User, "a", "c")), Some(200)).unwrap();
    assert_eq!(t.chars().nth(14), Some('4'));
}

#[test]
fn session_survives_other_calls() {
    let mut p = fresh();
    let t = p.log_in(Some(stored_user(6, Usertype::Admin, "a", "c")), Some(200)).unwrap();
    let other = p.log_in(Some(stored_user(7, Usertype::User, "b", "d")), Some(200)).unwrap();
    p.set_last_hash("h".to_string());
    let _ = p.unlock("card".to_string());
    let _ = p.start_use(Some(stored_user(7, Usertype::User, "b", "d")), 10);
    p.release();
    p.log_out(&other).unwrap();
    assert_eq!(p.get_user_role(&t), Some(Usertype::Admin));
    assert_eq!(p.get_user_id(&t), Some(6));
    assert_eq!(p.get_user_role(&other), None);
}

#[test]
fn last_hash_survives_other_calls() {
    let mut p = fresh();
    p.set_last_hash("first".to_string());
    let t = p.log_in(Some(stored_user(1, Usertype::User, "a", "c")), Some(200)).unwrap();
    p.log_out(&t).unwrap();
    p.set_current_user(None);
    p.release();
    assert_eq!(p.get_last_hash(), "first");
    assert_eq!(p.get_last_hash(), "first");
}

#[test]
fn laser_unlock_and_lock() {
    let mut p = fresh();
    assert!(p.get_current_user().is_none());
    let q = p.unlock("card-1".to_string()).unwrap();
    assert_eq!(q.sql(), "SELECT * FROM User  WHERE card_hash = ?   ");
    assert_eq!(q.params(), vec![SqlValue::Text("card-1".to_string())]);
    assert_eq!(p.get_last_hash(), "card-1");

    let u = stored_user(1, Usertype::User, "a@b.de", "card-1");
    let log = p.start_use(Some(u.clone()), 1000).unwrap();
    assert_eq!(log.id, None);
    assert_eq!(log.user_email, "a@b.de");
    assert_eq!(log.entry, "project");
    assert_eq!(log.timestamp_start, 1000);
    assert_eq!(log.timestamp_end, 0);
    assert_eq!(unlocked_message(), "Laser unlocked");
    p.log_saved(11);
    assert_eq!(p.get_current_user(), Some(u.clone()));
    let mut stored = log.clone();
    stored.id = Some(11);
    assert_eq!(p.get_current_log(), Some(stored));

    let refused = p.unlock("card-2".to_string());
    assert!(matches!(refused, Err(LaserError::AlreadyInUse)));
    assert_eq!(LaserError::AlreadyInUse.message(), "Laser already in use");
    assert_eq!(p.get_last_hash(), "card-2");
    assert_eq!(p.start_use(Some(u), 2000), Err(LaserError::AlreadyInUse));

    let step = p.lock(4600);
    assert_eq!(step.reply(), "Laser locked");
    match step {
        LockStep::Release(Some(finished)) => {
            assert_eq!(finished.id, Some(11));
            assert_eq!(finished.timestamp_start, 1000);
            assert_eq!(finished.timestamp_end, 4600);
            assert_eq!(finished.duration_string(), "01:00:00");
        }
        _ => panic!("the laser was in use"),
    }
    p.release();
    assert_eq!(p.get_current_user(), None);
    assert_eq!(p.get_current_log(), None);
    let again = p.lock(5000);
    assert!(matches!(again, LockStep::NotInUse));
    assert_eq!(again.reply(), "Laser already in use");
    assert!(p.unlock("card-3".to_string()).is_ok());
}

#[test]
fn unlock_with_unknown_card() {
    let mut p = fresh();
    assert!(p.unlock("nobody".to_string()).is_ok());
    assert_eq!(p.start_use(None, 5), Err(LaserError::UserNotInDb));
    assert_eq!(LaserError::UserNotInDb.message(), "User not in db");
    assert_eq!(p.get_current_user(), None);
    assert_eq!(p.get_current_log(), None);
    assert_eq!(p.get_last_hash(), "nobody");
}

#[test]
fn log_saved_without_use_changes_nothing() {
    let mut p = fresh();
    p.log_saved(3);
    assert_eq!(p.get_current_log(), None);
}

#[test]
fn lock_without_log() {
    let mut p = fresh();
    p.set_current_user(Some(stored_user(1, Usertype::User, "a", "c")));
    assert!(matches!(p.lock(1), LockStep::Release(None)));
}

#[test]
fn last_hash_setter() {
    let mut p = fresh();
    assert_eq!(p.get_last_hash(), "");
    p.set_last_hash("abc".to_string());
    assert_eq!(p.get_last_hash(), "abc");
}

#[test]
fn connection_of_state() {
    let p = fresh();
    assert!(matches!(p.get_conn(), Err(PersistenceError::NotInitialized)));
    let mut db = Persistence::new();
    db.initialize_in_memory().unwrap();
    let p = Persistance::new(db);
    assert!(p.get_conn().is_ok());
}

#[test]
fn state_keeps_the_given_database() {
    let mut db = Persistence::new();
    db.initialize_in_memory().unwrap();
    db.get_connection()
        .unwrap()
        .execute("CREATE TABLE marker (id INTEGER PRIMARY KEY)", [])
        .unwrap();
    let mut p = Persistance::new(db);
    let _ = p.log_in(Some(stored_user(1, Usertype::User, "a", "c")), Some(200));
    p.set_last_hash("h".to_string());
    let conn = p.get_conn().unwrap();
    conn.execute("INSERT INTO marker DEFAULT VALUES", []).unwrap();
}
