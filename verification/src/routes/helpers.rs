use vstd::prelude::*;
use vstd::string::StringExecFns;
use vstd::utf8::encode_utf8;

use crate::errors::auth;
use crate::errors::internal_server;
use crate::errors::{Error, ErrorKind};
use crate::json::{json_string_literal, quote};
use crate::password::{argon2_verdict, password_matches, verify_password};

verus! {

/// The body of a response that reports success.
#[derive(Clone, Debug)]
pub struct SuccessMessage {
    pub message: &'static str,
}

impl SuccessMessage {
    /// The message as a JSON object.
    pub open spec fn json_text(&self) -> Seq<char> {
        "{\"message\":"@ + json_string_literal(self.message@) + "}"@
    }

    /// Writes the message as a JSON object.
    pub fn to_json(&self) -> (text: String)
        ensures
            text@ == self.json_text(),
    {
        let mut text = String::from_str("{\"message\":");
        text.append(quote(self.message).as_str());
        text.append("}");
        text
    }
}

/// What a login is turned down with, given what the hasher found of the password: nothing
/// where the password verifies, an authentication error where it does not, and an internal
/// error where the stored text is no hash.
pub open spec fn password_finding(verdict: Option<bool>) -> Option<ErrorKind> {
    match verdict {
        Some(true) => None,
        Some(false) => Some(ErrorKind::Auth(auth::ErrorVariants::IncorrectPassword)),
        None => Some(ErrorKind::Internal(internal_server::ErrorVariants::AuthError)),
    }
}

/// Settles what the hasher found of a password.
pub fn password_report(verdict: Option<bool>) -> (report: Option<Error>)
    ensures
        match password_finding(verdict) {
            Some(kind) => report matches Some(e) && e.stands_for(kind),
            None => report is None,
        },
{
    match verdict {
        Some(true) => None,
        Some(false) => Some(auth::ErrorVariants::IncorrectPassword.to_error()),
        None => Some(internal_server::ErrorVariants::AuthError.to_error()),
    }
}

/// Checks the password that a client gave against the hash that is stored for the user:
/// nothing comes back where it verifies.
pub fn check_password_hash(password: String, hash: &str) -> (report: Option<Error>)
    ensures
        match password_finding(argon2_verdict(hash@, encode_utf8(password@))) {
            Some(kind) => report matches Some(e) && e.stands_for(kind),
            None => report is None,
        },
{
    password_report(verify_password(hash, password.as_str()))
}

/// A password that verifies against the stored hash is not turned down: so a user who
/// logs in with the password that the stored hash was made from has the password accepted.
pub proof fn lemma_matching_password_is_accepted(hash: Seq<char>, password: Seq<char>)
    requires
        password_matches(hash, password),
    ensures
        password_finding(argon2_verdict(hash, encode_utf8(password))) is None,
{
}

} // verus!
