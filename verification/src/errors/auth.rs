use vstd::prelude::*;
use vstd::string::StringExecFns;

use crate::json::{json_string_literal, quote};

verus! {

/// An authentication error: `kind` names the failure for machines, `message` for people.
#[derive(Debug)]
pub struct AuthError {
    pub kind: &'static str,
    pub message: &'static str,
}

/// The ways in which a login can be turned down.
#[derive(Clone, Copy, Debug, PartialEq, Eq, Structural)]
pub enum ErrorVariants {
    UsernameNotFound,
    IncorrectPassword,
}

impl ErrorVariants {
    /// Machine-readable name of the failure.
    pub open spec fn kind(self) -> Seq<char> {
        match self {
            ErrorVariants::UsernameNotFound => "UsernameNotFound"@,
            ErrorVariants::IncorrectPassword => "IncorrectPassword"@,
        }
    }

    /// What the client is told.
    pub open spec fn message(self) -> Seq<char> {
        match self {
            ErrorVariants::UsernameNotFound => "User with specified username not found"@,
            ErrorVariants::IncorrectPassword => "Password is incorrect"@,
        }
    }

    /// The authentication error for this failure.
    fn to_auth_error(self) -> (e: AuthError)
        ensures
            e.reports(self),
    {
        match self {
            ErrorVariants::UsernameNotFound => AuthError {
                kind: "UsernameNotFound",
                message: "User with specified username not found",
            },
            ErrorVariants::IncorrectPassword => AuthError {
                kind: "IncorrectPassword",
                message: "Password is incorrect",
            },
        }
    }

    /// The authentication error for this failure, wrapped for the client.
    pub fn to_error(self) -> (e: super::Error)
        ensures
            e.is_auth(self),
    {
        super::Error {
            error: super::ApplicationError {
                kind: "AuthError",
                body: super::ErrorCategories::AuthError(self.to_auth_error()),
            },
        }
    }
}

impl AuthError {
    /// This error is the report of the failure `failure`.
    pub open spec fn reports(&self, failure: ErrorVariants) -> bool {
        self.kind@ == failure.kind() && self.message@ == failure.message()
    }

    /// The error as a JSON object.
    pub open spec fn json_text(&self) -> Seq<char> {
        "{\"kind\":"@ + json_string_literal(self.kind@) + ",\"message\":"@ + json_string_literal(
            self.message@,
        ) + "}"@
    }

    /// Writes the error as a JSON object.
    pub fn to_json(&self) -> (text: String)
        ensures
            text@ == self.json_text(),
    {
        let mut text = String::from_str("{\"kind\":");
        text.append(quote(self.kind).as_str());
        text.append(",\"message\":");
        text.append(quote(self.message).as_str());
        text.append("}");
        text
    }

    /// The error as one line of text for logs.
    pub open spec fn display_text(&self) -> Seq<char> {
        "AuthError { kind: "@ + self.kind@ + ", message: \""@ + self.message@ + "\" }"@
    }

    /// Writes the error as one line of text for logs.
    pub fn to_string(&self) -> (text: String)
        ensures
            text@ == self.display_text(),
    {
        let mut text = String::from_str("AuthError { kind: ");
        text.append(self.kind);
        text.append(", message: \"");
        text.append(self.message);
        text.append("\" }");
        text
    }

    /// This error is one of the named authentication errors.
    pub open spec fn wf(&self) -> bool {
        exists|failure: ErrorVariants| self.reports(failure)
    }
}

/// The two failures have different names, so an error reports at most one of them.
pub proof fn lemma_kinds_differ()
    ensures
        ErrorVariants::UsernameNotFound.kind() != ErrorVariants::IncorrectPassword.kind(),
{
    reveal_strlit("UsernameNotFound");
    reveal_strlit("IncorrectPassword");
    assert("UsernameNotFound"@.len() == 16);
    assert("IncorrectPassword"@.len() == 17);
}

} // verus!
