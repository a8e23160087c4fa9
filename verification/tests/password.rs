use argon2::password_hash::{PasswordHasher, SaltString};
use argon2::Argon2;
use session_auth::auth::password::{
    hash_password, hash_with_salt, verify_password, MAX_PASSWORD_BYTES, RECORD_PREFIX,
    RECORD_SEPARATOR,
};
use session_auth::utils::error::AppErrorType;

const SALT: &str = "c29tZXNhbHRzb21lc2FsdA";

#[test]
fn password_matches_its_own_record() {
    for plaintext in ["hunter2", "", " ", "pässwörd\u{1F511}", "a\0b"] {
        let record = hash_password(plaintext).unwrap();
        assert!(verify_password(plaintext, &record));
    }
}

#[test]
fn other_password_does_not_match() {
    let record = hash_password("hunter2").unwrap();
    assert!(!verify_password("hunter3", &record));
    assert!(!verify_password("", &record));
    assert!(!verify_password("hunter2 ", &record));
    assert!(!verify_password("Hunter2", &record));
    let empty = hash_password("").unwrap();
    assert!(!verify_password("hunter2", &empty));
}

#[test]
fn same_password_hashed_twice_gives_two_records() {
    let first = hash_password("hunter2").unwrap();
    let second = hash_password("hunter2").unwrap();
    assert_ne!(first, second);
    assert!(verify_password("hunter2", &first));
    assert!(verify_password("hunter2", &second));
}

#[test]
fn record_describes_itself() {
    let record = hash_password("hunter2").unwrap();
    assert_ne!(record, "hunter2");
    assert!(record.starts_with("$argon2id$v=19$m=19456,t=2,p=1$"));
    assert_eq!(record.split('$').count(), 6);
    assert!(!record.contains("hunter2"));
}

#[test]
fn record_under_a_given_salt_is_argon2s() {
    let record = hash_with_salt("hunter2", SALT).unwrap();
    let salt = SaltString::from_b64(SALT).unwrap();
    let expected = Argon2::default().hash_password(b"hunter2", &salt).unwrap().to_string();
    assert_eq!(record, expected);
    assert_eq!(record, hash_with_salt("hunter2", SALT).unwrap());
    assert!(record.starts_with("$argon2id$v=19$m=19456,t=2,p=1$c29tZXNhbHRzb21lc2FsdA$"));
    assert!(verify_password("hunter2", &record));
    assert!(!verify_password("hunter3", &record));
}

#[test]
fn record_depends_on_password_and_salt() {
    let record = hash_with_salt("hunter2", SALT).unwrap();
    assert_ne!(record, hash_with_salt("hunter3", SALT).unwrap());
    assert_ne!(record, hash_with_salt("hunter2", "YW5vdGhlcnNhbHRhbm90aGVy").unwrap());
}

#[test]
fn salt_that_argon2_refuses_is_a_hashing_failure() {
    assert_eq!(hash_with_salt("hunter2", ""), Err(AppErrorType::HashingFailure));
    assert_eq!(hash_with_salt("hunter2", "abc"), Err(AppErrorType::HashingFailure));
    assert_eq!(hash_with_salt("hunter2", "abcd"), Err(AppErrorType::HashingFailure));
    assert_eq!(hash_with_salt("hunter2", "not a salt!!"), Err(AppErrorType::HashingFailure));
    let long = "a".repeat(65);
    assert_eq!(hash_with_salt("hunter2", &long), Err(AppErrorType::HashingFailure));
}

#[test]
fn malformed_record_matches_nothing() {
    for record in [
        "",
        "hunter2",
        "$",
        "$argon2id",
        "$argon2id$v=19$m=19456,t=2,p=1",
        "$argon2id$v=19$m=19456,t=2,p=1$c29tZXNhbHRzb21lc2FsdA",
        "$argon2id$v=19$m=19456,t=2,p=1$c29tZXNhbHRzb21lc2FsdA$!!!",
        "$md5$v=19$m=19456,t=2,p=1$c29tZXNhbHRzb21lc2FsdA$c29tZXNhbHRzb21lc2FsdA",
        "not$a$record",
    ] {
        assert!(!verify_password("hunter2", record));
        assert!(!verify_password("", record));
    }
}

#[test]
fn record_with_a_changed_digest_or_salt_does_not_match() {
    let record = hash_with_salt("hunter2", SALT).unwrap();
    let other = hash_with_salt("hunter2", "YW5vdGhlcnNhbHRhbm90aGVy").unwrap();
    let digest = record.rsplit('$').next().unwrap();
    let other_digest = other.rsplit('$').next().unwrap();
    let spliced = record.replace(digest, other_digest);
    assert_ne!(spliced, record);
    assert!(!verify_password("hunter2", &spliced));
}

#[test]
fn record_of_other_parameters_still_verifies() {
    let salt = SaltString::from_b64(SALT).unwrap();
    let params = argon2::Params::new(8, 1, 1, None).unwrap();
    let hasher = Argon2::new(argon2::Algorithm::Argon2i, argon2::Version::V0x10, params);
    let record = hasher.hash_password(b"hunter2", &salt).unwrap().to_string();
    assert!(record.starts_with("$argon2i$v=16$m=8,t=1,p=1$"));
    assert!(verify_password("hunter2", &record));
    assert!(!verify_password("hunter3", &record));
}

#[test]
fn record_holds_parameters_salt_and_digest() {
    assert_eq!(RECORD_PREFIX, "$argon2id$v=19$m=19456,t=2,p=1$");
    assert_eq!(RECORD_SEPARATOR, "$");
    for (plaintext, salt) in [("hunter2", SALT), ("", "YW5vdGhlcnNhbHRhbm90aGVy"), ("x", "abcdefghijk")] {
        let record = hash_with_salt(plaintext, salt).unwrap();
        let opening = format!("{}{}{}", RECORD_PREFIX, salt, RECORD_SEPARATOR);
        assert!(record.starts_with(&opening));
        let digest = &record[opening.len()..];
        assert_eq!(digest.len(), 43);
        assert!(!digest.contains('$'));
    }
    let record = hash_password("hunter2").unwrap();
    let fields: Vec<&str> = record.split('$').collect();
    assert_eq!(fields[..4], ["", "argon2id", "v=19", "m=19456,t=2,p=1"]);
    assert_eq!(fields[4].len(), 22);
    assert_eq!(fields[5].len(), 43);
}

fn has_drawn_form(salt: &str) -> bool {
    let chars: Vec<char> = salt.chars().collect();
    chars.len() == 22
        && chars.iter().all(|c| c.is_ascii_alphanumeric() || *c == '+' || *c == '/')
        && ['A', 'Q', 'g', 'w'].contains(&chars[21])
}

#[test]
fn drawn_salt_is_sixteen_bytes_in_22_characters() {
    for _ in 0..6 {
        let record = hash_password("").unwrap();
        let salt = record.split('$').nth(4).unwrap().to_string();
        assert!(has_drawn_form(&salt), "salt {salt}");
    }
    let record = hash_password("hunter2").unwrap();
    let salt = record.split('$').nth(4).unwrap().to_string();
    assert_eq!(record, hash_with_salt("hunter2", &salt).unwrap());
}

#[test]
fn every_salt_of_the_drawn_form_gives_a_record() {
    for salt in [
        "AAAAAAAAAAAAAAAAAAAAAA",
        "/////////////////////w",
        "+++++++++++++++++++++Q",
        "zzzzzzzzzzzzzzzzzzzzzg",
        "0123456789abcdefABCDEg",
    ] {
        assert!(has_drawn_form(salt));
        let record = hash_with_salt("hunter2", salt).unwrap();
        assert_eq!(record, format!("{}{}${}", RECORD_PREFIX, salt, record.rsplit('$').next().unwrap()));
        assert!(verify_password("hunter2", &record));
    }
}

#[test]
fn content_of_a_password_never_fails_hashing() {
    assert_eq!(MAX_PASSWORD_BYTES, u32::MAX);
    let long = "x".repeat(1 << 20);
    let wide = "\u{10FFFF}".repeat(1 << 10);
    for plaintext in ["", "$argon2id$v=19$", "a\0b", long.as_str(), wide.as_str()] {
        let record = hash_password(plaintext).unwrap();
        assert!(verify_password(plaintext, &record));
        assert_ne!(record, plaintext);
        assert_eq!(record.split('$').count(), 6);
    }
}
