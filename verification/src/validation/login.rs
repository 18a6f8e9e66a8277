use vstd::prelude::*;
use vstd::string::StrSliceExecFns;

use super::{
    email_length_ok, is_match, login_password_length_ok, matches_pattern, name_length_ok,
    Validate, EMAIL_PATTERN,
};
use crate::errors::validation::auth::ErrorVariants;
use crate::errors::validation::ValidationError;
use crate::models::user::UserLogin;

verus! {

/// The rule that a login breaks first, given what was found of it: the lengths of its
/// username, email and password in characters, and whether the email matches the email
/// pattern. A login has no display name, and its password is held to a length only.
pub open spec fn login_finding(
    username_len: nat,
    email_len: nat,
    email_matches: bool,
    password_len: nat,
) -> Option<ErrorVariants> {
    if !name_length_ok(username_len) {
        Some(ErrorVariants::UsernameLength)
    } else if !email_length_ok(email_len) {
        Some(ErrorVariants::EmailLength)
    } else if !email_matches {
        Some(ErrorVariants::EmailInvalid)
    } else if !login_password_length_ok(password_len) {
        Some(ErrorVariants::PasswordWeak)
    } else {
        None
    }
}

/// Reports the first rule that a login breaks, given what was found of it.
pub fn login_report(
    username_len: usize,
    email_len: usize,
    email_matches: bool,
    password_len: usize,
) -> (report: Option<ValidationError>)
    ensures
        match login_finding(
            username_len as nat,
            email_len as nat,
            email_matches,
            password_len as nat,
        ) {
            Some(rule) => report matches Some(e) && e.reports(rule),
            None => report is None,
        },
{
    let rule = if username_len < 3 || username_len > 128 {
        ErrorVariants::UsernameLength
    } else if email_len < 6 || email_len > 256 {
        ErrorVariants::EmailLength
    } else if !email_matches {
        ErrorVariants::EmailInvalid
    } else if password_len < 8 || password_len > 256 {
        ErrorVariants::PasswordWeak
    } else {
        return None;
    };
    Some(rule.to_validation_error())
}

impl Validate for UserLogin {
    open spec fn breaks(&self, rule: ErrorVariants) -> bool {
        match rule {
            ErrorVariants::DisplaynameLength => false,
            ErrorVariants::UsernameLength => !name_length_ok(self.username@.len()),
            ErrorVariants::EmailLength => !email_length_ok(self.email@.len()),
            ErrorVariants::EmailInvalid => !matches_pattern(EMAIL_PATTERN@, self.email@),
            ErrorVariants::PasswordWeak => !login_password_length_ok(self.password@.len()),
        }
    }

    /// Validates a login. The email pattern is tried only on a payload whose username and
    /// email have lengths that are in order.
    fn validate(&self) -> (report: Option<ValidationError>) {
        let username_len = self.username.as_str().unicode_len();
        let email_len = self.email.as_str().unicode_len();
        let password_len = self.password.as_str().unicode_len();
        let lengths_ok = 3 <= username_len && username_len <= 128 && 6 <= email_len && email_len
            <= 256;
        let email_matches = lengths_ok && is_match(EMAIL_PATTERN, self.email.as_str());
        login_report(username_len, email_len, email_matches, password_len)
    }
}

} // verus!
