use locat::error::LocatError;
use locat::store::Db;

/// Drops the counter table so a test starts from an empty store; the store
/// itself re-creates the schema on every operation.
fn reset(path: &str) {
    let conn = rusqlite::Connection::open(path).unwrap();
    conn.execute("DROP TABLE IF EXISTS analytics", []).unwrap();
}

#[test]
fn test_db() {
    let path = "/tmp/locat-test.db";
    reset(path);
    let mut db = Db::new(path.to_string());

    let analytics = db.list().unwrap();
    assert_eq!(analytics.len(), 0);

    db.increment("US").unwrap();
    let analytics = db.list().unwrap();
    assert_eq!(analytics.len(), 1);

    db.increment("US").unwrap();
    db.increment("FR").unwrap();
    let analytics = db.list().unwrap();
    assert_eq!(analytics.len(), 2);
    // contains US at count 2
    assert!(analytics.contains(&("US".to_string(), 2)));
    // contains FR at count 1
    assert!(analytics.contains(&("FR".to_string(), 1)));
    // doesn't contain DE
    assert!(!analytics.contains(&("DE".to_string(), 0)));
}

#[test]
fn fresh_code_twice_counts_two() {
    let path = "/tmp/locat-test-twice.db";
    reset(path);
    let mut db = Db::new(path.to_string());

    db.increment("JP").unwrap();
    db.increment("JP").unwrap();
    let analytics = db.list().unwrap();
    assert_eq!(analytics.len(), 1);
    assert!(analytics.contains(&("JP".to_string(), 2)));
}

#[test]
fn list_matches_increments_exactly() {
    let path = "/tmp/locat-test-exact.db";
    reset(path);
    let mut db = Db::new(path.to_string());

    assert_eq!(db.list().unwrap().len(), 0);

    db.increment("US").unwrap();
    db.increment("FR").unwrap();
    db.increment("FR").unwrap();
    let analytics = db.list().unwrap();
    assert_eq!(analytics.len(), 2);
    assert!(analytics.contains(&("US".to_string(), 1)));
    assert!(analytics.contains(&("FR".to_string(), 2)));
}

#[test]
fn no_zero_or_duplicate_rows() {
    let path = "/tmp/locat-test-sound.db";
    reset(path);
    let mut db = Db::new(path.to_string());

    db.increment("US").unwrap();
    db.increment("FR").unwrap();
    db.increment("US").unwrap();
    db.increment("DE").unwrap();
    let analytics = db.list().unwrap();
    for (code, count) in &analytics {
        assert!(*count >= 1);
        let copies = analytics.iter().filter(|(c, _)| c == code).count();
        assert_eq!(copies, 1);
    }
}

#[test]
fn counts_survive_reopen() {
    let path = "/tmp/locat-test-reopen.db";
    reset(path);
    let mut db = Db::new(path.to_string());

    db.increment("DE").unwrap();
    db.increment("DE").unwrap();
    db.increment("DE").unwrap();
    drop(db);

    let reopened = Db::new(path.to_string());
    let analytics = reopened.list().unwrap();
    assert!(analytics.contains(&("DE".to_string(), 3)));
}

#[test]
fn reopen_preserves_counts() {
    let path = "/tmp/locat-test-handoff.db";
    reset(path);
    let mut db = Db::new(path.to_string());

    db.increment("BR").unwrap();
    db.increment("BR").unwrap();
    let fresh = db.reopen();
    let analytics = fresh.list().unwrap();
    assert!(analytics.contains(&("BR".to_string(), 2)));
}

#[test]
fn write_error_on_unopenable_file() {
    // A directory can never be opened as a database file.
    let mut db = Db::new("/tmp".to_string());
    match db.increment("US") {
        Err(LocatError::StoreWrite(msg)) => assert!(!msg.is_empty()),
        other => panic!("expected a write error, got {:?}", other),
    }
}

#[test]
fn read_error_on_unopenable_file() {
    let db = Db::new("/tmp".to_string());
    match db.list() {
        Err(LocatError::StoreRead(msg)) => assert!(!msg.is_empty()),
        other => panic!("expected a read error, got {:?}", other),
    }
}
