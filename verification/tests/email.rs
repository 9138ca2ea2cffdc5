use kragdb::email::EmailAddr;

#[test]
fn email_parse() {
    assert!(EmailAddr::from_str("bruh").is_err());
    assert!(EmailAddr::from_str("default@gmail.com").is_ok());
}

#[test]
fn email_is_kept_verbatim() {
    let e = EmailAddr::from_str("default@gmail.com").unwrap();
    assert_eq!(e.as_ref(), "default@gmail.com");
    let stored = EmailAddr::from_stored("kept@example.com".to_string());
    assert_eq!(stored.as_ref(), "kept@example.com");
}
