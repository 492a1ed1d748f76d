use login_guard::auth::password::{
    check_lanes, hash, hash_outcome, hash_with_salt, validate_new_password, verify, verify_outcome, HashError,
    PolicyViolation, MAX_PASSWORD_LEN, MIN_PASSWORD_LEN,
};

#[test]
fn empty_and_short_passwords_fail() {
    for password in ["", "x", "12345"] {
        assert!(
            validate_new_password(password).is_err(),
            "password={password:?}"
        );
    }
}

#[test]
fn boundary_lengths_pass() {
    assert!(validate_new_password("123456").is_ok());
    assert!(validate_new_password(&"x".repeat(MAX_PASSWORD_LEN)).is_ok());
}

#[test]
fn overlong_password_fails() {
    assert!(validate_new_password(&"x".repeat(MAX_PASSWORD_LEN + 1)).is_err());
}

#[test]
fn hash_and_verify_roundtrip() {
    let hash = hash("correct-horse-1").unwrap();
    assert!(verify("correct-horse-1", &hash).unwrap());
    assert!(!verify("wrong-horse-2", &hash).unwrap());
}

#[test]
fn each_violation_has_its_cause_and_text() {
    assert_eq!(validate_new_password("12345"), Err(PolicyViolation::TooShort));
    assert_eq!(
        validate_new_password(&"x".repeat(MAX_PASSWORD_LEN + 1)),
        Err(PolicyViolation::TooLong)
    );
    assert_eq!(
        PolicyViolation::TooShort.message(),
        format!("new password must be at least {MIN_PASSWORD_LEN} characters")
    );
    assert_eq!(
        PolicyViolation::TooLong.message(),
        format!("new password must be at most {MAX_PASSWORD_LEN} characters")
    );
}

#[test]
fn length_is_counted_in_bytes() {
    // Three characters of two bytes each.
    assert_eq!(validate_new_password("\u{e9}\u{e9}\u{e9}"), Ok(()));
    // Six characters are never too short.
    assert_eq!(validate_new_password("\u{65e5}\u{672c}\u{8a9e}\u{65e5}\u{672c}\u{8a9e}"), Ok(()));
    // Thirty-two characters of four bytes fill the ceiling; one more is over it.
    assert_eq!(validate_new_password(&"\u{1f600}".repeat(32)), Ok(()));
    assert_eq!(
        validate_new_password(&"\u{1f600}".repeat(33)),
        Err(PolicyViolation::TooLong)
    );
}

#[test]
fn a_hash_names_the_algorithm_and_the_salt() {
    let text = hash_with_salt("correct-horse-1", "c29tZXNhbHRzb21lc2FsdA").unwrap();
    assert!(text.starts_with("$argon2id$v=19$m=19456,t=2,p=1$c29tZXNhbHRzb21lc2FsdA$"));
    assert_eq!(text, hash_with_salt("correct-horse-1", "c29tZXNhbHRzb21lc2FsdA").unwrap());
    assert_eq!(text.len(), "$argon2id$v=19$m=19456,t=2,p=1$c29tZXNhbHRzb21lc2FsdA$".len() + 43);
    assert!(verify("correct-horse-1", &text).unwrap());
}

#[test]
fn two_hashes_of_one_password_differ() {
    let first = hash("correct-horse-1").unwrap();
    let second = hash("correct-horse-1").unwrap();
    assert_ne!(first, second);
    let salt = first.split('$').nth(4).unwrap();
    assert_eq!(salt.len(), 22);
    assert!(salt.chars().all(|c| c.is_ascii_alphanumeric() || c == '+' || c == '/'));
    assert!("AQgw".contains(salt.chars().last().unwrap()));
}

#[test]
fn an_empty_password_can_be_hashed() {
    let text = hash("").unwrap();
    assert!(verify("", &text).unwrap());
    assert!(!verify("x", &text).unwrap());
}

#[test]
fn a_bad_salt_is_refused() {
    let e = hash_with_salt("correct-horse-1", "no").unwrap_err();
    assert!(matches!(e, HashError::Hash { .. }));
    assert!(e.message().starts_with("hash error: "));
    assert!(e.message().len() > "hash error: ".len());
}

#[test]
fn a_text_that_is_no_hash_is_refused() {
    let e = verify("correct-horse-1", "plain text").unwrap_err();
    assert!(matches!(e, HashError::Parse { .. }));
    assert!(e.message().starts_with("parse hash: "));
    assert!(verify("correct-horse-1", "").is_err());
}

#[test]
fn a_hash_without_output_fits_nothing() {
    assert!(!verify("correct-horse-1", "$argon2id$v=19$m=19456,t=2,p=1").unwrap());
}

#[test]
fn outcomes_are_taken_over() {
    assert_eq!(hash_outcome(Ok("h".to_string())).unwrap(), "h");
    assert_eq!(hash_outcome(Err("why".to_string())).unwrap_err().message(), "hash error: why");
    assert!(verify_outcome(Ok(()), true).unwrap());
    assert!(!verify_outcome(Ok(()), false).unwrap());
    assert_eq!(verify_outcome(Err("why".to_string()), true).unwrap_err().message(), "parse hash: why");
}

fn with_params(params: &str) -> String {
    format!("$argon2id$v=19${params}$AAAAAAAAAAAAAAAAAAAAAA${}", "A".repeat(43))
}

#[test]
fn lanes_beyond_the_limits_fit_nothing() {
    for lanes in ["4294967295", "536870912", "100000000", "16777216", "0", "007", "many"] {
        let hash = with_params(&format!("m=19456,t=2,p={lanes}"));
        assert!(!verify("correct-horse-1", &hash).unwrap(), "lanes={lanes}");
    }
    assert!(!verify("correct-horse-1", &with_params("p=1,m=19456,t=2,p=4294967295")).unwrap());
    assert!(!verify("correct-horse-1", &with_params("p=4294967295,m=19456,t=2,p=1")).unwrap());
}

#[test]
fn the_last_number_of_lanes_counts() {
    let params = |pairs: &[(&str, &str)]| {
        pairs.iter().map(|(n, v)| (n.to_string(), v.to_string())).collect::<Vec<_>>()
    };
    assert!(check_lanes(&params(&[])));
    assert!(check_lanes(&params(&[("m", "4294967295"), ("t", "4294967295")])));
    assert!(check_lanes(&params(&[("p", "99999999")])));
    assert!(!check_lanes(&params(&[("p", "100000000")])));
    assert!(check_lanes(&params(&[("p", "100000000"), ("p", "1"), ("t", "2")])));
    assert!(!check_lanes(&params(&[("p", "1"), ("p", "100000000"), ("t", "2")])));
}
