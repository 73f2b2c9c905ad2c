use laserlogin::{Persistence, PersistenceError, PersistenceProvider};

#[test]
fn initialize_in_memory_once() {
    let mut p = Persistence::new();
    assert!(matches!(p.get_connection(), Err(PersistenceError::NotInitialized)));
    assert!(p.initialize_in_memory().is_ok());
    assert!(p.get_connection().is_ok());
    let again = p.initialize_in_memory();
    assert!(matches!(again, Err(PersistenceError::AlreadyInitialized)));
    assert_eq!(
        again.unwrap_err().message(),
        Some("Persistence already initialized!")
    );
    assert!(p.get_connection().is_ok());
}

#[test]
fn initialize_from_missing_directory_fails() {
    let mut p = Persistence::new();
    let r = p.initialize_from_file("/nonexistent-directory/sub/db.db");
    assert!(matches!(r, Err(PersistenceError::Open(_))));
    assert!(p.get_connection().is_err());
    assert_eq!(
        PersistenceError::NotInitialized.message(),
        Some("Persistence not initialized yet!")
    );
}

#[test]
fn provider_in_memory_runs_sql() {
    let provider = PersistenceProvider::initialize_in_memory().unwrap();
    let conn = provider.get_connection();
    conn.execute("CREATE TABLE t (id INTEGER PRIMARY KEY)", []).unwrap();
}

#[test]
fn install_keeps_the_first_database() {
    let mut p = Persistence::new();
    let failed = p.install(Err(rusqlite::Error::InvalidQuery));
    assert!(matches!(failed, Err(PersistenceError::Open(_))));
    assert!(p.get_connection().is_err());
    let first = PersistenceProvider::initialize_in_memory();
    assert!(p.install(first).is_ok());
    let second = PersistenceProvider::initialize_in_memory();
    assert!(matches!(p.install(second), Err(PersistenceError::AlreadyInitialized)));
    let third = p.install(Err(rusqlite::Error::InvalidQuery));
    assert!(matches!(third, Err(PersistenceError::Open(_))));
    assert!(p.get_connection().is_ok());
}

#[test]
fn initialize_from_file_once() {
    let mut p = Persistence::new();
    assert!(p.initialize_from_file(":memory:").is_ok());
    let conn = p.get_connection().unwrap();
    conn.execute("CREATE TABLE t (id INTEGER PRIMARY KEY)", []).unwrap();
    let again = p.initialize_from_file(":memory:");
    assert!(matches!(again, Err(PersistenceError::AlreadyInitialized)));
    let failed = p.initialize_from_file("/nonexistent-directory/sub/db.db");
    assert!(matches!(failed, Err(PersistenceError::Open(_))));
    let conn = p.get_connection().unwrap();
    conn.execute("INSERT INTO t DEFAULT VALUES", []).unwrap();
}

#[test]
fn provider_from_file() {
    let provider = PersistenceProvider::initialize_from_file(":memory:").unwrap();
    provider
        .get_connection()
        .execute("CREATE TABLE t (id INTEGER PRIMARY KEY)", [])
        .unwrap();
    assert!(PersistenceProvider::initialize_from_file("/nonexistent-directory/x/db.db").is_err());
}
