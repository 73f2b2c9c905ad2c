use laserlogin::model::config::Config;
use laserlogin::model::log::Log;
use laserlogin::model::user::{User, UserCreation, Usertype};
use laserlogin::{AdminUser, NormalUser};

fn user(email: &str) -> User {
    User::new(Usertype::User, email, "h", "p")
}

#[test]
fn usertype_names() {
    assert_eq!(Usertype::from_str("Admin"), Usertype::Admin);
    assert_eq!(Usertype::from_str("User"), Usertype::User);
    assert_eq!(Usertype::from_string("Admin".to_string()), Usertype::Admin);
    assert_eq!(Usertype::Admin.to_str(), "Admin");
    assert_eq!(Usertype::User.to_str(), "User");
    assert_eq!(Usertype::from_str(Usertype::User.to_str()), Usertype::User);
}

#[test]
fn usertype_order_and_flags() {
    assert!(Usertype::Admin.at_most(Usertype::User));
    assert!(Usertype::Admin.at_most(Usertype::Admin));
    assert!(!Usertype::User.at_most(Usertype::Admin));
    assert!(Usertype::Admin < Usertype::User);
    let a = Usertype::Admin.flags();
    assert!(a.admin && a.user);
    let u = Usertype::User.flags();
    assert!(!u.admin && u.user);
}

#[test]
fn guards_by_role() {
    assert!(AdminUser::from_role(Some(Usertype::Admin)).is_some());
    assert!(AdminUser::from_role(Some(Usertype::User)).is_none());
    assert!(AdminUser::from_role(None).is_none());
    assert!(NormalUser::from_role(Some(Usertype::Admin)).is_some());
    assert!(NormalUser::from_role(Some(Usertype::User)).is_some());
    assert!(NormalUser::from_role(None).is_none());
    assert_eq!(Usertype::from(AdminUser {}), Usertype::Admin);
    assert_eq!(Usertype::from(NormalUser {}), Usertype::User);
}

#[test]
fn new_user_fields() {
    let u = User::new(Usertype::Admin, "a@b.de", "card", "laser");
    assert_eq!(u.id, None);
    assert_eq!(u.usertype, "Admin");
    assert_eq!(u.email, "a@b.de");
    assert_eq!(u.card_hash, "card");
    assert_eq!(u.current_project, "laser");
    assert!(u.verify(Some(200)));
    assert!(!u.verify(Some(401)));
    assert!(!u.verify(Some(403)));
    assert!(!u.verify(None));
}

#[test]
fn first_admin_trims_unicode_white_space() {
    let u = User::first_admin("\u{3000}\t boss@fh-kiel.de\u{a0}\r\n");
    assert_eq!(u.email, "boss@fh-kiel.de");
    let u = User::first_admin(" \n ");
    assert_eq!(u.email, "");
}

#[test]
fn user_from_columns() {
    let u: Result<User, String> = User::from_columns(
        Ok(Some(3)),
        Ok("Admin".to_string()),
        Ok("a@b.de".to_string()),
        Ok("card".to_string()),
        Ok("laser".to_string()),
    );
    let u = u.unwrap();
    assert_eq!(u.id, Some(3));
    assert_eq!(u.usertype, "Admin");
    assert_eq!(u.email, "a@b.de");
    assert_eq!(u.card_hash, "card");
    assert_eq!(u.current_project, "laser");
    let e: Result<User, String> = User::from_columns(
        Ok(Some(3)),
        Ok("Admin".to_string()),
        Err("email".to_string()),
        Err("card_hash".to_string()),
        Ok("laser".to_string()),
    );
    assert_eq!(e, Err("email".to_string()));
}

#[test]
fn log_and_config_from_columns() {
    let l: Result<Log, &str> = Log::from_columns(
        Ok(None),
        Ok("a@b.de".to_string()),
        Ok("p".to_string()),
        Ok(10),
        Ok(70),
    );
    let l = l.unwrap();
    assert_eq!(l.id, None);
    assert_eq!(l.user_email, "a@b.de");
    assert_eq!(l.entry, "p");
    assert_eq!(l.timestamp_start, 10);
    assert_eq!(l.timestamp_end, 70);
    let e: Result<Log, &str> =
        Log::from_columns(Err("id"), Err("user_email"), Ok("p".to_string()), Ok(1), Err("end"));
    assert_eq!(e, Err("id"));
    let c: Result<Config, &str> =
        Config::from_columns(Ok(Some(1)), Ok("salt".to_string()), Ok("xyz".to_string()));
    let c = c.unwrap();
    assert_eq!(c.id, Some(1));
    assert_eq!(c.name, "salt");
    assert_eq!(c.value, "xyz");
    let e: Result<Config, &str> = Config::from_columns(Ok(Some(1)), Ok("salt".to_string()), Err("value"));
    assert!(matches!(e, Err("value")));
}

#[test]
fn history_queries() {
    let q = Log::history_query(Some("a@b.de"));
    assert_eq!(
        q.sql(),
        "SELECT * FROM Log  WHERE user_email = ?   ORDER BY timestamp_start DESC "
    );
    assert_eq!(q.params(), vec![laserlogin::SqlValue::Text("a@b.de".to_string())]);
    let all = Log::history_query(None);
    assert_eq!(all.sql(), "SELECT * FROM Log    ORDER BY timestamp_start DESC ");
    assert!(all.params().is_empty());
}

#[test]
fn first_admin_trims_the_file() {
    let u = User::first_admin("  boss@fh-kiel.de \n");
    assert_eq!(u.email, "boss@fh-kiel.de");
    assert_eq!(u.usertype, "Admin");
    assert_eq!(u.card_hash, "");
    assert_eq!(u.current_project, "");
    assert_eq!(u.id, None);
}

#[test]
fn creation_refuses_taken_or_short_email() {
    let users = vec![user("a@b.de"), user("c@d.de")];
    assert!(matches!(
        User::plan_creation(&users, "User", "a@b.de", "h", "p"),
        UserCreation::EmailAlreadyRegistered
    ));
    assert!(matches!(
        User::plan_creation(&users, "User", "x", "h", "p"),
        UserCreation::EmailAlreadyRegistered
    ));
    assert_eq!(
        User::plan_creation(&users, "User", "", "", "p").message(),
        "Email already registered"
    );
}

#[test]
fn creation_refuses_empty_card_hash() {
    let users = vec![user("a@b.de")];
    let r = User::plan_creation(&users, "User", "new@b.de", "", "p");
    assert!(matches!(r, UserCreation::CardHashTooShort));
    assert_eq!(r.message(), "Card hash too short");
}

#[test]
fn creation_makes_the_user() {
    let users = vec![user("a@b.de")];
    let r = User::plan_creation(&users, "Admin", "new@b.de", "card", "proj");
    assert_eq!(r.message(), "User created");
    match r {
        UserCreation::Create(u) => {
            assert_eq!(u, User::new(Usertype::Admin, "new@b.de", "card", "proj"));
        }
        _ => panic!("expected a new user"),
    }
    let two_byte = User::plan_creation(&users, "User", "\u{e9}", "c", "p");
    assert!(matches!(two_byte, UserCreation::Create(_)));
}

#[test]
fn admin_update_needs_card_hash() {
    let mut u = user("a@b.de");
    u.id = Some(3);
    let before = u.clone();
    assert!(!u.apply_admin_update("Admin".into(), "n@b.de".into(), "".into(), "q".into()));
    assert_eq!(u, before);
    assert!(u.apply_admin_update("Admin".into(), "n@b.de".into(), "c2".into(), "q".into()));
    assert_eq!(u.id, Some(3));
    assert_eq!(u.usertype, "Admin");
    assert_eq!(u.email, "n@b.de");
    assert_eq!(u.card_hash, "c2");
    assert_eq!(u.current_project, "q");
}

#[test]
fn log_new_and_opened_by() {
    let l = Log::new("e".into(), "p".into(), 5, 6);
    assert_eq!(l.id, None);
    assert_eq!((l.timestamp_start, l.timestamp_end), (5, 6));
    let u = User::new(Usertype::User, "a@b.de", "h", "cutting");
    let o = Log::opened_by(&u, 1000);
    assert_eq!(o, Log::new("a@b.de".into(), "cutting".into(), 1000, 0));
}

#[test]
fn duration_strings() {
    let d = |start: i64, end: i64| Log::new(String::new(), String::new(), start, end).duration_string();
    assert_eq!(d(0, 3725), "01:02:05");
    assert_eq!(d(100, 100), "00:00:00");
    assert_eq!(d(0, 59), "00:00:59");
    assert_eq!(d(0, 2 * 86400), "48:00:00");
    assert_eq!(d(0, 360000), "100:00:00");
    assert_eq!(d(5, 0), "00:00:-5");
    assert_eq!(d(1700000000, 0), "-472222:-13:-20");
}

#[test]
fn duration_matches_std_formatting() {
    for (start, end) in [(0i64, 1i64), (10, 7), (3600, 0), (123456, 987654), (-50, 4000)] {
        let secs = end - start;
        let expected = format!("{:02}:{:02}:{:02}", secs / 3600, (secs / 60) % 60, secs % 60);
        let got = Log::new(String::new(), String::new(), start, end).duration_string();
        assert_eq!(got, expected);
    }
}

#[test]
fn config_and_salt() {
    let c = Config::new("salt", "v");
    assert_eq!(c.name, "salt");
    assert_eq!(c.value, "v");
    assert_eq!(c.id, None);
    let salt = Config::salt_if_missing(&None).unwrap();
    assert_eq!(salt.name, "salt");
    assert_eq!(salt.value.chars().count(), 64);
    assert!(salt.value.chars().all(|ch| ch.is_ascii_alphanumeric()));
    assert!(Config::salt_if_missing(&Some(c)).is_none());
}

#[test]
fn first_admin_only_for_a_new_database() {
    let u = User::first_admin_if_new(true, Some(" root@fh-kiel.de\n")).unwrap();
    assert_eq!(u.email, "root@fh-kiel.de");
    assert_eq!(u.usertype, "Admin");
    assert_eq!(u.card_hash, "");
    assert_eq!(u.current_project, "");
    assert_eq!(u.id, None);
    assert!(User::first_admin_if_new(false, Some("root@fh-kiel.de")).is_none());
    assert!(User::first_admin_if_new(true, None).is_none());
    assert!(User::first_admin_if_new(false, None).is_none());
}
