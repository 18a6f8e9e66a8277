use user_auth::errors::ErrorCategories;
use user_auth::password::{hash_password, verify_password};
use user_auth::routes::helpers::{check_password_hash, password_report};

const SECRET: &str = "a secret of the server";

#[test]
fn a_hash_verifies_against_its_password() {
    let hash = hash_password("Abcdef1!", SECRET).expect("the password can be hashed");
    assert!(hash.starts_with("$argon2"));
    assert_eq!(verify_password(&hash, "Abcdef1!"), Some(true));
}

#[test]
fn a_hash_does_not_verify_against_another_password() {
    let hash = hash_password("Abcdef1!", SECRET).expect("the password can be hashed");
    assert_eq!(verify_password(&hash, "Abcdef1?"), Some(false));
    assert_eq!(verify_password(&hash, ""), Some(false));
}

#[test]
fn the_salt_is_shared() {
    let first = hash_password("Abcdef1!", SECRET).expect("the password can be hashed");
    let second = hash_password("Abcdef1!", SECRET).expect("the password can be hashed");
    assert_eq!(first, second);
    let other = hash_password("Abcdef1!", "another secret").expect("the password can be hashed");
    assert_ne!(first, other);
}

#[test]
fn a_short_secret_gives_no_hash() {
    assert_eq!(hash_password("Abcdef1!", "short"), None);
}

#[test]
fn what_is_no_hash_gives_no_verdict() {
    assert_eq!(verify_password("not a hash", "Abcdef1!"), None);
}

#[test]
fn a_known_hash_verifies() {
    let encoded = "$argon2i$v=19$m=4096,t=3,p=1$c29tZXNhbHQ$iWh06vD8Fy27wf9npn6FXWiCX4K6pW6Ue1Bnzz07Z8A";
    assert_eq!(verify_password(encoded, "password"), Some(true));
    assert_eq!(verify_password(encoded, "passwore"), Some(false));
}

#[test]
fn check_reports_nothing_for_the_right_password() {
    let hash = hash_password("Abcdef1!", SECRET).expect("the password can be hashed");
    assert!(check_password_hash("Abcdef1!".to_string(), &hash).is_none());
}

#[test]
fn check_reports_an_incorrect_password() {
    let hash = hash_password("Abcdef1!", SECRET).expect("the password can be hashed");
    let error = check_password_hash("Abcdef1?".to_string(), &hash).expect("the password is wrong");
    assert_eq!(error.error.kind, "AuthError");
    match error.error.body {
        ErrorCategories::AuthError(inner) => {
            assert_eq!(inner.kind, "IncorrectPassword");
            assert_eq!(inner.message, "Password is incorrect");
        },
        _ => panic!("an authentication error was expected"),
    }
}

#[test]
fn check_reports_an_internal_error_for_what_is_no_hash() {
    let error = check_password_hash("Abcdef1!".to_string(), "garbage").expect("no verdict");
    assert_eq!(error.error.kind, "InternalError");
    match error.error.body {
        ErrorCategories::InternalServerError(inner) => assert_eq!(inner.kind, "AuthError"),
        _ => panic!("an internal error was expected"),
    }
}

#[test]
fn report_for_each_verdict() {
    assert!(password_report(Some(true)).is_none());
    assert_eq!(password_report(Some(false)).expect("wrong").error.kind, "AuthError");
    assert_eq!(password_report(None).expect("unreadable").error.kind, "InternalError");
}
