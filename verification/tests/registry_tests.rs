use backend::models::Session;
use backend::registry::{
    get_session_by_token, insert_session, Registry, StorageError, MAX_FIELD_LEN,
};

fn record(token: &str, hostname: &str, ip_address: Option<&str>, created_at: Option<i64>) -> Session {
    Session {
        token: token.to_string(),
        hostname: hostname.to_string(),
        ip_address: ip_address.map(|ip| ip.to_string()),
        created_at,
    }
}

#[test]
fn a_new_registry_knows_no_token() {
    let registry = Registry::new();
    assert_eq!(get_session_by_token(&registry, "abc12345"), Ok(None));
    assert_eq!(get_session_by_token(&registry, ""), Ok(None));
}

#[test]
fn a_lookup_after_an_insert_finds_the_record() {
    let mut registry = Registry::new();
    assert_eq!(insert_session(&mut registry, "abc12345", "example.com", None, Some(1_700_000_000_000_000)), Ok(()));
    assert_eq!(
        get_session_by_token(&registry, "abc12345"),
        Ok(Some(record("abc12345", "example.com", None, Some(1_700_000_000_000_000))))
    );
}

#[test]
fn a_record_keeps_its_address() {
    let mut registry = Registry::new();
    assert_eq!(insert_session(&mut registry, "0f9e8d7c", "example.com", Some("10.0.0.5"), None), Ok(()));
    assert_eq!(
        get_session_by_token(&registry, "0f9e8d7c"),
        Ok(Some(record("0f9e8d7c", "example.com", Some("10.0.0.5"), None)))
    );
}

#[test]
fn a_lookup_of_an_unknown_token_is_no_error() {
    let mut registry = Registry::new();
    insert_session(&mut registry, "abc12345", "example.com", None, None).unwrap();
    assert_eq!(get_session_by_token(&registry, "abc1234"), Ok(None));
    assert_eq!(get_session_by_token(&registry, "abc123456"), Ok(None));
    assert_eq!(get_session_by_token(&registry, "ABC12345"), Ok(None));
}

#[test]
fn a_taken_token_is_refused_and_nothing_is_overwritten() {
    let mut registry = Registry::new();
    insert_session(&mut registry, "abc12345", "first.example", None, Some(1)).unwrap();
    assert_eq!(
        insert_session(&mut registry, "abc12345", "second.example", Some("10.0.0.9"), Some(2)),
        Err(StorageError::DuplicateToken)
    );
    assert_eq!(
        get_session_by_token(&registry, "abc12345"),
        Ok(Some(record("abc12345", "first.example", None, Some(1))))
    );
}

#[test]
fn records_stay_as_they_are_when_others_are_created() {
    let mut registry = Registry::new();
    insert_session(&mut registry, "aaaaaaaa", "a.example", None, Some(1)).unwrap();
    insert_session(&mut registry, "bbbbbbbb", "b.example", Some("10.0.0.2"), Some(2)).unwrap();
    insert_session(&mut registry, "cccccccc", "c.example", None, None).unwrap();
    assert_eq!(
        get_session_by_token(&registry, "aaaaaaaa"),
        Ok(Some(record("aaaaaaaa", "a.example", None, Some(1))))
    );
    assert_eq!(
        get_session_by_token(&registry, "bbbbbbbb"),
        Ok(Some(record("bbbbbbbb", "b.example", Some("10.0.0.2"), Some(2))))
    );
    assert_eq!(
        get_session_by_token(&registry, "cccccccc"),
        Ok(Some(record("cccccccc", "c.example", None, None)))
    );
}

#[test]
fn a_field_at_the_bound_fits() {
    let long = "h".repeat(MAX_FIELD_LEN);
    let mut registry = Registry::new();
    assert_eq!(insert_session(&mut registry, &long, &long, Some(&long), None), Ok(()));
    assert_eq!(
        get_session_by_token(&registry, &long),
        Ok(Some(record(&long, &long, Some(&long), None)))
    );
}

#[test]
fn a_field_beyond_the_bound_is_refused() {
    let long = "h".repeat(MAX_FIELD_LEN + 1);
    let mut registry = Registry::new();
    assert_eq!(
        insert_session(&mut registry, &long, "example.com", None, None),
        Err(StorageError::FieldTooLong)
    );
    assert_eq!(
        insert_session(&mut registry, "abc12345", &long, None, None),
        Err(StorageError::FieldTooLong)
    );
    assert_eq!(
        insert_session(&mut registry, "abc12345", "example.com", Some(&long), None),
        Err(StorageError::FieldTooLong)
    );
    assert_eq!(get_session_by_token(&registry, "abc12345"), Ok(None));
    assert_eq!(get_session_by_token(&registry, &long), Ok(None));
}

#[test]
fn the_bound_counts_characters() {
    let long = "\u{fc}".repeat(MAX_FIELD_LEN);
    assert_eq!(long.len(), 2 * MAX_FIELD_LEN);
    let mut registry = Registry::new();
    assert_eq!(insert_session(&mut registry, "abc12345", &long, None, None), Ok(()));
}

#[test]
fn a_record_that_does_not_fit_is_refused_before_its_token_is_looked_at() {
    let long = "h".repeat(MAX_FIELD_LEN + 1);
    let mut registry = Registry::new();
    insert_session(&mut registry, "abc12345", "example.com", None, None).unwrap();
    assert_eq!(
        insert_session(&mut registry, "abc12345", &long, None, None),
        Err(StorageError::FieldTooLong)
    );
}
