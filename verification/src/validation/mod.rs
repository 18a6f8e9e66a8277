use vstd::prelude::*;

use crate::errors::validation::auth::ErrorVariants;
use crate::errors::validation::ValidationError;

pub mod login;
pub mod registration;

verus! {

/// The pattern an email address must match: a local part, `@`, and a domain with a dot in
/// it, with no whitespace and no second `@` anywhere.
pub const EMAIL_PATTERN: &'static str = r"^[^@\s]+@[^@\s]+\.[^@.\s]+$";

/// The pattern a new password must match: 8 to 128 characters on one line, among them a
/// digit or a symbol, an upper case letter and a lower case letter.
pub const PASSWORD_PATTERN: &'static str =
    r"(?=^.{8,128}$)((?=.*\d)|(?=.*\W+))(?=.*[A-Z])(?=.*[a-z]).*$";

/// What the regular expression engine finds of `text` under `pattern`: `Some(true)` where the
/// pattern matches somewhere in the text, `Some(false)` where it does not, `None` where the
/// pattern does not compile or the engine gives up on the text.
pub uninterp spec fn pattern_verdict(pattern: Seq<char>, text: Seq<char>) -> Option<bool>;

/// `fancy_regex::Regex::new` on the pattern, then `Regex::is_match` on the text, both with
/// the engine's default options. The contract claims that the outcome is a function of the
/// pattern and the text alone, and names it.
#[verifier::external_body]
fn find_match(pattern: &str, text: &str) -> (found: Option<bool>)
    ensures
        found == pattern_verdict(pattern@, text@),
{
    fancy_regex::Regex::new(pattern).ok()?.is_match(text).ok()
}

/// The text matches the pattern. A text on which the engine reaches no verdict counts as
/// one that does not match.
pub open spec fn matches_pattern(pattern: Seq<char>, text: Seq<char>) -> bool {
    pattern_verdict(pattern, text) == Some(true)
}

/// Whether `text` matches `pattern`.
pub fn is_match(pattern: &str, text: &str) -> (matched: bool)
    ensures
        matched == matches_pattern(pattern@, text@),
{
    match find_match(pattern, text) {
        Some(matched) => matched,
        None => false,
    }
}

/// A display name or username has an acceptable length: 3 to 128 characters.
pub open spec fn name_length_ok(len: nat) -> bool {
    3 <= len <= 128
}

/// An email address has an acceptable length: 6 to 256 characters.
pub open spec fn email_length_ok(len: nat) -> bool {
    6 <= len <= 256
}

/// A new password has an acceptable length: 8 to 128 characters.
pub open spec fn new_password_length_ok(len: nat) -> bool {
    8 <= len <= 128
}

/// A password presented at login has an acceptable length: 8 to 256 characters.
pub open spec fn login_password_length_ok(len: nat) -> bool {
    8 <= len <= 256
}

/// The first rule, in the checking order, that is broken, where `breaks` says of each rule
/// whether it is.
pub open spec fn first_broken(breaks: spec_fn(ErrorVariants) -> bool) -> Option<ErrorVariants> {
    if breaks(ErrorVariants::DisplaynameLength) {
        Some(ErrorVariants::DisplaynameLength)
    } else if breaks(ErrorVariants::UsernameLength) {
        Some(ErrorVariants::UsernameLength)
    } else if breaks(ErrorVariants::EmailLength) {
        Some(ErrorVariants::EmailLength)
    } else if breaks(ErrorVariants::EmailInvalid) {
        Some(ErrorVariants::EmailInvalid)
    } else if breaks(ErrorVariants::PasswordWeak) {
        Some(ErrorVariants::PasswordWeak)
    } else {
        None
    }
}

/// A payload that can be checked against the validator's rules.
pub trait Validate {
    /// Whether the payload breaks `rule`.
    spec fn breaks(&self, rule: ErrorVariants) -> bool;

    /// Checks the rules in their fixed order and reports the first that the payload breaks,
    /// or nothing where it breaks none.
    fn validate(&self) -> (report: Option<ValidationError>)
        ensures
            match first_broken(|rule: ErrorVariants| self.breaks(rule)) {
                Some(rule) => report matches Some(e) && e.reports(rule),
                None => report is None,
            },
    ;
}

/// Where several rules are broken at once, the one that is checked first is the one
/// reported: a rule is reported exactly when it is broken and no rule that is checked
/// before it is.
pub proof fn lemma_first_broken_rule_is_reported(
    breaks: spec_fn(ErrorVariants) -> bool,
    rule: ErrorVariants,
)
    ensures
        first_broken(breaks) == Some(rule) <==> breaks(rule) && forall|earlier: ErrorVariants|
            earlier.rank() < rule.rank() ==> !breaks(earlier),
{
    if breaks(rule) && forall|earlier: ErrorVariants|
        earlier.rank() < rule.rank() ==> !breaks(earlier) {
        assert(ErrorVariants::DisplaynameLength.rank() == 0);
        assert(ErrorVariants::UsernameLength.rank() == 1);
        assert(ErrorVariants::EmailLength.rank() == 2);
        assert(ErrorVariants::EmailInvalid.rank() == 3);
    }
}

/// Nothing is reported exactly when no rule is broken.
pub proof fn lemma_passes_iff_no_rule_broken(breaks: spec_fn(ErrorVariants) -> bool)
    ensures
        first_broken(breaks) is None <==> forall|rule: ErrorVariants| !#[trigger] breaks(rule),
{
    if first_broken(breaks) is None {
        assert forall|rule: ErrorVariants| !#[trigger] breaks(rule) by {
            match rule {
                ErrorVariants::DisplaynameLength => {},
                ErrorVariants::UsernameLength => {},
                ErrorVariants::EmailLength => {},
                ErrorVariants::EmailInvalid => {},
                ErrorVariants::PasswordWeak => {},
            }
        }
    }
}

} // verus!
