use user_service::oid::{fresh_object_id_hex, is_valid_object_id};

#[test]
fn well_formed_identifiers_are_accepted() {
    assert!(is_valid_object_id("0123456789abcdef01234567"));
    assert!(is_valid_object_id("0123456789ABCDEF01234567"));
    assert!(is_valid_object_id("ffffffffffffffffffffffff"));
}

#[test]
fn malformed_identifiers_are_rejected() {
    assert!(!is_valid_object_id(""));
    assert!(!is_valid_object_id("abc"));
    assert!(!is_valid_object_id("0123456789abcdef0123456"));
    assert!(!is_valid_object_id("0123456789abcdef012345678"));
    assert!(!is_valid_object_id("0123456789abcdef0123456g"));
    assert!(!is_valid_object_id("0123456789abcdef0123456!"));
}

#[test]
fn fresh_identifiers_are_well_formed_and_distinct() {
    let a = fresh_object_id_hex();
    let b = fresh_object_id_hex();
    assert_eq!(a.len(), 24);
    assert!(a.chars().all(|c| c.is_ascii_hexdigit()));
    assert!(is_valid_object_id(&a));
    assert!(is_valid_object_id(&b));
    assert_ne!(a, b);
}
