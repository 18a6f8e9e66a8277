use user_auth::errors::validation::auth::ErrorVariants;
use user_auth::models::user::{UserInsert, UserLogin};
use user_auth::validation::login::login_report;
use user_auth::validation::registration::registration_report;
use user_auth::validation::{is_match, Validate, EMAIL_PATTERN, PASSWORD_PATTERN};

fn registration(displayname: &str, username: &str, email: &str, password: &str) -> UserInsert {
    UserInsert {
        displayname: displayname.to_string(),
        username: username.to_string(),
        email: email.to_string(),
        password: password.to_string(),
    }
}

#[test]
fn valid_registration_passes() {
    let body = registration("Ann Lee", "annlee", "ann@example.com", "Abcdef1!");
    assert!(body.validate().is_none());
}

#[test]
fn short_password_is_reported_on_the_password_field() {
    let body = registration("Ann Lee", "annlee", "ann@example.com", "abc");
    let report = body.validate().expect("a weak password is refused");
    assert_eq!(report.field, "password");
    assert_eq!(
        report.message,
        "password must contain at least: 1 upper case letter, 1 lower case letter, 1 number or special character and must be between 8 and 128 characters in length"
    );
}

#[test]
fn first_broken_rule_wins() {
    let body = registration("ab", "annlee", "not-an-email", "abc");
    let report = body.validate().expect("the payload breaks three rules");
    assert_eq!(report.field, "displayname");
    assert_eq!(report.message, "displayname must be 3 to 128 characters in length");
}

#[test]
fn email_pattern_cases() {
    assert!(is_match(EMAIL_PATTERN, "ann@example.com"));
    assert!(!is_match(EMAIL_PATTERN, "ann@example"));
    assert!(!is_match(EMAIL_PATTERN, "ann@@example.com"));
    assert!(!is_match(EMAIL_PATTERN, "ann lee@example.com"));
    assert!(!is_match(EMAIL_PATTERN, "@example.com"));
}

#[test]
fn password_pattern_cases() {
    assert!(is_match(PASSWORD_PATTERN, "Abcdef1!"));
    assert!(is_match(PASSWORD_PATTERN, "Abcdefg!"));
    assert!(!is_match(PASSWORD_PATTERN, "abcdefg1"));
    assert!(!is_match(PASSWORD_PATTERN, "ABCDEFG1"));
    assert!(!is_match(PASSWORD_PATTERN, "Abcdefgh"));
    assert!(!is_match(PASSWORD_PATTERN, "Abc1!"));
    assert!(is_match(PASSWORD_PATTERN, ".Abcdef1"));
    assert!(is_match(PASSWORD_PATTERN, "Abcdefg."));
}

#[test]
fn report_follows_the_findings() {
    assert!(registration_report(3, 3, 6, true, 8, true).is_none());
    assert!(registration_report(128, 128, 256, true, 128, true).is_none());
    let report = registration_report(3, 129, 5, false, 3, false).expect("username too long");
    assert_eq!(report.field, "username");
    let report = registration_report(128, 128, 257, true, 8, true).expect("email too long");
    assert_eq!(report.message, "email must be 6 to 256 characters in length");
    let report = registration_report(3, 3, 6, false, 8, true).expect("email malformed");
    assert_eq!(report.message, "email is invalid");
    let report = registration_report(3, 3, 6, true, 8, false).expect("password weak");
    assert_eq!(report.field, "password");
}

#[test]
fn a_password_out_of_bounds_is_weak_whatever_the_pattern_says() {
    assert_eq!(registration_report(3, 3, 6, true, 7, true).expect("too short").field, "password");
    assert_eq!(registration_report(3, 3, 6, true, 129, true).expect("too long").field, "password");
    assert_eq!(registration_report(3, 3, 6, true, 0, true).expect("empty").field, "password");
}

#[test]
fn login_takes_a_legacy_password() {
    let body = UserLogin {
        username: "annlee".to_string(),
        email: "ann@example.com".to_string(),
        password: "abcdefgh".to_string(),
    };
    assert!(body.validate().is_none());
    let short = UserLogin {
        username: "annlee".to_string(),
        email: "ann@example.com".to_string(),
        password: "abc".to_string(),
    };
    assert_eq!(short.validate().expect("too short").field, "password");
    let _ = ErrorVariants::PasswordWeak;
}

fn email_of_length(len: usize) -> String {
    let tail = "@example.com";
    format!("{}{}", "a".repeat(len - tail.len()), tail)
}

fn report_field(body: &UserInsert) -> Option<&'static str> {
    body.validate().map(|report| report.field)
}

#[test]
fn displayname_bounds() {
    let ok = "Abcdef1!";
    assert_eq!(report_field(&registration("ab", "annlee", "ann@example.com", ok)), Some("displayname"));
    assert_eq!(report_field(&registration("abc", "annlee", "ann@example.com", ok)), None);
    assert_eq!(report_field(&registration(&"a".repeat(128), "annlee", "ann@example.com", ok)), None);
    assert_eq!(
        report_field(&registration(&"a".repeat(129), "annlee", "ann@example.com", ok)),
        Some("displayname")
    );
    assert_eq!(report_field(&registration("", "annlee", "ann@example.com", ok)), Some("displayname"));
}

#[test]
fn username_bounds() {
    let ok = "Abcdef1!";
    let report = registration("Ann Lee", "an", "ann@example.com", ok).validate().expect("too short");
    assert_eq!(report.field, "username");
    assert_eq!(report.message, "username must be 3 to 128 characters in length");
    assert_eq!(report_field(&registration("Ann Lee", "ann", "ann@example.com", ok)), None);
    assert_eq!(report_field(&registration("Ann Lee", &"a".repeat(128), "ann@example.com", ok)), None);
    assert_eq!(
        report_field(&registration("Ann Lee", &"a".repeat(129), "ann@example.com", ok)),
        Some("username")
    );
}

#[test]
fn email_bounds() {
    let ok = "Abcdef1!";
    let report = registration("Ann Lee", "annlee", "a@b.c", ok).validate().expect("too short");
    assert_eq!(report.field, "email");
    assert_eq!(report.message, "email must be 6 to 256 characters in length");
    assert_eq!(report_field(&registration("Ann Lee", "annlee", "a@b.co", ok)), None);
    assert_eq!(report_field(&registration("Ann Lee", "annlee", &email_of_length(256), ok)), None);
    let report = registration("Ann Lee", "annlee", &email_of_length(257), ok)
        .validate()
        .expect("too long");
    assert_eq!(report.message, "email must be 6 to 256 characters in length");
}

#[test]
fn email_shape() {
    let ok = "Abcdef1!";
    let report = registration("Ann Lee", "annlee", "ann.example.com", ok).validate().expect("no @");
    assert_eq!(report.field, "email");
    assert_eq!(report.message, "email is invalid");
    assert_eq!(report_field(&registration("Ann Lee", "annlee", "ann@example.com ", ok)), Some("email"));
    assert_eq!(report_field(&registration("Ann Lee", "annlee", "ann@exam@ple.com", ok)), Some("email"));
    assert_eq!(report_field(&registration("Ann Lee", "annlee", "ann@example.", ok)), Some("email"));
}

#[test]
fn a_password_may_begin_with_a_full_stop() {
    assert_eq!(report_field(&registration("Ann Lee", "annlee", "ann@example.com", ".Abcdef1")), None);
}

#[test]
fn password_bounds() {
    let strong = format!("A1{}", "a".repeat(126));
    assert_eq!(strong.chars().count(), 128);
    assert_eq!(report_field(&registration("Ann Lee", "annlee", "ann@example.com", &strong)), None);
    let long = format!("A1{}", "a".repeat(127));
    assert_eq!(report_field(&registration("Ann Lee", "annlee", "ann@example.com", &long)), Some("password"));
    assert_eq!(report_field(&registration("Ann Lee", "annlee", "ann@example.com", "Abcde1!")), Some("password"));
    assert_eq!(report_field(&registration("Ann Lee", "annlee", "ann@example.com", "Abcdef 1")), None);
    assert_eq!(
        report_field(&registration("Ann Lee", "annlee", "ann@example.com", "Abcd\nef1!")),
        Some("password")
    );
}

#[test]
fn lengths_are_counted_in_characters() {
    let ok = "Abcdef1!";
    assert_eq!(report_field(&registration("日本", "annlee", "ann@example.com", ok)), Some("displayname"));
    assert_eq!(report_field(&registration("日本語", "annlee", "ann@example.com", ok)), None);
    assert_eq!(report_field(&registration(&"é".repeat(128), "annlee", "ann@example.com", ok)), None);
    assert_eq!(
        report_field(&registration(&"é".repeat(129), "annlee", "ann@example.com", ok)),
        Some("displayname")
    );
}

#[test]
fn the_order_of_the_rules() {
    let ok = "Abcdef1!";
    assert_eq!(report_field(&registration("ab", "an", "bad", "weak")), Some("displayname"));
    assert_eq!(report_field(&registration("Ann Lee", "an", "bad", "weak")), Some("username"));
    let report = registration("Ann Lee", "annlee", "bad", "weak").validate().expect("email");
    assert_eq!(report.message, "email must be 6 to 256 characters in length");
    let report = registration("Ann Lee", "annlee", "bad-email", "weak").validate().expect("email");
    assert_eq!(report.message, "email is invalid");
    assert_eq!(report_field(&registration("Ann Lee", "annlee", "ann@example.com", "weak")), Some("password"));
    assert_eq!(report_field(&registration("Ann Lee", "annlee", "ann@example.com", ok)), None);
}

#[test]
fn login_bounds() {
    let login = |username: &str, email: &str, password: &str| UserLogin {
        username: username.to_string(),
        email: email.to_string(),
        password: password.to_string(),
    };
    assert!(login("annlee", "ann@example.com", "abcdefgh").validate().is_none());
    assert!(login("annlee", "ann@example.com", &"a".repeat(256)).validate().is_none());
    assert_eq!(
        login("annlee", "ann@example.com", &"a".repeat(257)).validate().expect("too long").field,
        "password"
    );
    assert_eq!(login("annlee", "ann@example.com", "abcdefg").validate().expect("short").field, "password");
    assert_eq!(login("an", "bad", "x").validate().expect("username").field, "username");
    assert_eq!(
        login("annlee", "bad", "x").validate().expect("email").message,
        "email must be 6 to 256 characters in length"
    );
    assert_eq!(login("annlee", "bad-email", "x").validate().expect("email").message, "email is invalid");
}

#[test]
fn login_report_follows_the_findings() {
    assert!(login_report(3, 6, true, 8).is_none());
    assert!(login_report(128, 256, true, 256).is_none());
    assert_eq!(login_report(2, 6, true, 8).expect("username").field, "username");
    assert_eq!(login_report(3, 5, true, 8).expect("email").field, "email");
    assert_eq!(login_report(3, 6, false, 8).expect("email").message, "email is invalid");
    assert_eq!(login_report(3, 6, true, 7).expect("password").field, "password");
    assert_eq!(login_report(3, 6, true, 257).expect("password").field, "password");
}
