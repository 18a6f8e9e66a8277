use vstd::prelude::*;
use vstd::string::StringExecFns;

use crate::json::{json_string_literal, quote};

verus! {

/// An internal server error. It carries no message: what went wrong inside is not the
/// client's to know.
#[derive(Debug)]
pub struct InternalServerError {
    pub kind: &'static str,
}

/// The parts of the system in which an internal error can arise.
#[derive(Clone, Copy, Debug, PartialEq, Eq, Structural)]
pub enum ErrorVariants {
    DBError,
    AuthError,
}

impl ErrorVariants {
    /// Machine-readable name of the failing part.
    pub open spec fn kind(self) -> Seq<char> {
        match self {
            ErrorVariants::DBError => "DBError"@,
            ErrorVariants::AuthError => "AuthError"@,
        }
    }

    /// The internal error for this part.
    fn to_internal_server_error(self) -> (e: InternalServerError)
        ensures
            e.reports(self),
    {
        match self {
            ErrorVariants::DBError => InternalServerError { kind: "DBError" },
            ErrorVariants::AuthError => InternalServerError { kind: "AuthError" },
        }
    }

    /// The internal error for this part, wrapped for the client.
    pub fn to_error(self) -> (e: super::Error)
        ensures
            e.is_internal(self),
    {
        super::Error {
            error: super::ApplicationError {
                kind: "InternalError",
                body: super::ErrorCategories::InternalServerError(
                    self.to_internal_server_error(),
                ),
            },
        }
    }
}

impl InternalServerError {
    /// This error is the report of a failure in `part`.
    pub open spec fn reports(&self, part: ErrorVariants) -> bool {
        self.kind@ == part.kind()
    }

    /// The error as a JSON object.
    pub open spec fn json_text(&self) -> Seq<char> {
        "{\"kind\":"@ + json_string_literal(self.kind@) + "}"@
    }

    /// Writes the error as a JSON object.
    pub fn to_json(&self) -> (text: String)
        ensures
            text@ == self.json_text(),
    {
        let mut text = String::from_str("{\"kind\":");
        text.append(quote(self.kind).as_str());
        text.append("}");
        text
    }

    /// The error as one line of text for logs.
    pub open spec fn display_text(&self) -> Seq<char> {
        "kind: "@ + self.kind@
    }

    /// Writes the error as one line of text for logs.
    pub fn to_string(&self) -> (text: String)
        ensures
            text@ == self.display_text(),
    {
        let mut text = String::from_str("kind: ");
        text.append(self.kind);
        text
    }

    /// This error is one of the named internal errors.
    pub open spec fn wf(&self) -> bool {
        exists|part: ErrorVariants| self.reports(part)
    }
}

} // verus!
