use locat::addr::IpAddress;
use locat::error::LocatError;
use locat::locat::Locat;

#[test]
fn resolver_init_error_on_missing_database() {
    let r = Locat::new("/tmp/locat-no-such-database.mmdb", "/tmp/locat-test-unused.db");
    match r {
        Err(LocatError::ResolverInit(msg)) => assert!(!msg.is_empty()),
        Err(other) => panic!("expected a resolver error, got {:?}", other),
        Ok(_) => panic!("expected opening a missing database to fail"),
    }
}

#[test]
fn error_message_is_carried() {
    let e = LocatError::StoreWrite("disk full".to_string());
    assert_eq!(e.message(), "disk full");
}

#[test]
fn addresses_compare_by_bits() {
    assert_eq!(IpAddress::V4(0x7f000001), IpAddress::V4(0x7f000001));
    assert_ne!(IpAddress::V4(1), IpAddress::V6(1));
}
