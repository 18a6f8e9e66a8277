use vstd::prelude::*;
use vstd::string::StrSliceExecFns;

use super::{
    email_length_ok, first_broken, is_match, matches_pattern, name_length_ok,
    new_password_length_ok, Validate, EMAIL_PATTERN, PASSWORD_PATTERN,
};
use crate::errors::validation::auth::ErrorVariants;
use crate::errors::validation::ValidationError;
use crate::models::user::UserInsert;

verus! {

/// The rule that a registration breaks first, given what was found of it: the lengths of
/// its display name, username, email and password in characters, whether the email matches
/// the email pattern and whether the password matches the password pattern.
pub open spec fn registration_finding(
    displayname_len: nat,
    username_len: nat,
    email_len: nat,
    email_matches: bool,
    password_len: nat,
    password_matches: bool,
) -> Option<ErrorVariants> {
    if !name_length_ok(displayname_len) {
        Some(ErrorVariants::DisplaynameLength)
    } else if !name_length_ok(username_len) {
        Some(ErrorVariants::UsernameLength)
    } else if !email_length_ok(email_len) {
        Some(ErrorVariants::EmailLength)
    } else if !email_matches {
        Some(ErrorVariants::EmailInvalid)
    } else if !new_password_length_ok(password_len) || !password_matches {
        Some(ErrorVariants::PasswordWeak)
    } else {
        None
    }
}

/// Reports the first rule that a registration breaks, given what was found of it.
pub fn registration_report(
    displayname_len: usize,
    username_len: usize,
    email_len: usize,
    email_matches: bool,
    password_len: usize,
    password_matches: bool,
) -> (report: Option<ValidationError>)
    ensures
        match registration_finding(
            displayname_len as nat,
            username_len as nat,
            email_len as nat,
            email_matches,
            password_len as nat,
            password_matches,
        ) {
            Some(rule) => report matches Some(e) && e.reports(rule),
            None => report is None,
        },
{
    let rule = if displayname_len < 3 || displayname_len > 128 {
        ErrorVariants::DisplaynameLength
    } else if username_len < 3 || username_len > 128 {
        ErrorVariants::UsernameLength
    } else if email_len < 6 || email_len > 256 {
        ErrorVariants::EmailLength
    } else if !email_matches {
        ErrorVariants::EmailInvalid
    } else if password_len < 8 || password_len > 128 || !password_matches {
        ErrorVariants::PasswordWeak
    } else {
        return None;
    };
    Some(rule.to_validation_error())
}

impl Validate for UserInsert {
    open spec fn breaks(&self, rule: ErrorVariants) -> bool {
        match rule {
            ErrorVariants::DisplaynameLength => !name_length_ok(self.displayname@.len()),
            ErrorVariants::UsernameLength => !name_length_ok(self.username@.len()),
            ErrorVariants::EmailLength => !email_length_ok(self.email@.len()),
            ErrorVariants::EmailInvalid => !matches_pattern(EMAIL_PATTERN@, self.email@),
            ErrorVariants::PasswordWeak => !new_password_length_ok(self.password@.len())
                || !matches_pattern(PASSWORD_PATTERN@, self.password@),
        }
    }

    /// Validates a registration. The patterns are tried only on a payload whose lengths
    /// are in order, and the password pattern only beside a well-formed email.
    fn validate(&self) -> (report: Option<ValidationError>) {
        let displayname_len = self.displayname.as_str().unicode_len();
        let username_len = self.username.as_str().unicode_len();
        let email_len = self.email.as_str().unicode_len();
        let lengths_ok = 3 <= displayname_len && displayname_len <= 128 && 3 <= username_len
            && username_len <= 128 && 6 <= email_len && email_len <= 256;
        let password_len = self.password.as_str().unicode_len();
        let email_matches = lengths_ok && is_match(EMAIL_PATTERN, self.email.as_str());
        let password_matches = email_matches && 8 <= password_len && password_len <= 128
            && is_match(PASSWORD_PATTERN, self.password.as_str());
        registration_report(
            displayname_len,
            username_len,
            email_len,
            email_matches,
            password_len,
            password_matches,
        )
    }
}

/// A registration whose password has fewer than 8 or more than 128 characters is never
/// let through, whatever the pattern engine makes of it; and where it breaks no other rule,
/// the rule reported is that of the password.
pub proof fn lemma_password_out_of_bounds_is_reported(body: UserInsert)
    requires
        !new_password_length_ok(body.password@.len()),
    ensures
        first_broken(|rule: ErrorVariants| body.breaks(rule)) is Some,
        (forall|rule: ErrorVariants|
            rule != ErrorVariants::PasswordWeak ==> !#[trigger] body.breaks(rule))
            ==> first_broken(|rule: ErrorVariants| body.breaks(rule)) == Some(
            ErrorVariants::PasswordWeak,
        ),
{
    assert(body.breaks(ErrorVariants::PasswordWeak));
    if forall|rule: ErrorVariants|
        rule != ErrorVariants::PasswordWeak ==> !#[trigger] body.breaks(rule) {
        assert(!body.breaks(ErrorVariants::DisplaynameLength));
        assert(!body.breaks(ErrorVariants::UsernameLength));
        assert(!body.breaks(ErrorVariants::EmailLength));
        assert(!body.breaks(ErrorVariants::EmailInvalid));
    }
}

} // verus!
