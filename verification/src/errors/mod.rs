use vstd::prelude::*;
use vstd::string::StringExecFns;

use crate::json::{json_string_literal, quote};

pub mod auth;
pub mod internal_server;
pub mod validation;

verus! {

/// The categories an error can belong to.
#[derive(Debug)]
pub enum ErrorCategories {
    ValidationError(validation::ValidationError),
    InternalServerError(internal_server::InternalServerError),
    AuthError(auth::AuthError),
}

/// An error with the name of its category.
#[derive(Debug)]
pub struct ApplicationError {
    pub kind: &'static str,
    pub body: ErrorCategories,
}

/// The envelope in which every error leaves the system.
#[derive(Debug)]
pub struct Error {
    pub error: ApplicationError,
}

impl ErrorCategories {
    /// The error as a JSON object: that of the error inside, with no mark of the category.
    pub open spec fn json_text(&self) -> Seq<char> {
        match self {
            ErrorCategories::ValidationError(e) => e.json_text(),
            ErrorCategories::InternalServerError(e) => e.json_text(),
            ErrorCategories::AuthError(e) => e.json_text(),
        }
    }

    /// Writes the error as a JSON object.
    pub fn to_json(&self) -> (text: String)
        ensures
            text@ == self.json_text(),
    {
        match self {
            ErrorCategories::ValidationError(e) => e.to_json(),
            ErrorCategories::InternalServerError(e) => e.to_json(),
            ErrorCategories::AuthError(e) => e.to_json(),
        }
    }

    /// The error in the indented form in which a debugger would print it: the category,
    /// and in brackets the error with one field to a line, each text between double quotes.
    pub open spec fn debug_text(&self) -> Seq<char> {
        match self {
            ErrorCategories::ValidationError(e) => "ValidationError(\n    ValidationError {\n        field: \""@
                + e.field@ + "\",\n        message: \""@ + e.message@ + "\",\n    },\n)"@,
            ErrorCategories::InternalServerError(e) => "InternalServerError(\n    InternalServerError {\n        kind: \""@
                + e.kind@ + "\",\n    },\n)"@,
            ErrorCategories::AuthError(e) => "AuthError(\n    AuthError {\n        kind: \""@
                + e.kind@ + "\",\n        message: \""@ + e.message@ + "\",\n    },\n)"@,
        }
    }

    /// Writes the error in the indented debug form.
    pub fn to_debug_string(&self) -> (text: String)
        ensures
            text@ == self.debug_text(),
    {
        match self {
            ErrorCategories::ValidationError(e) => {
                let mut text = String::from_str(
                    "ValidationError(\n    ValidationError {\n        field: \"",
                );
                text.append(e.field);
                text.append("\",\n        message: \"");
                text.append(e.message);
                text.append("\",\n    },\n)");
                text
            },
            ErrorCategories::InternalServerError(e) => {
                let mut text = String::from_str(
                    "InternalServerError(\n    InternalServerError {\n        kind: \"",
                );
                text.append(e.kind);
                text.append("\",\n    },\n)");
                text
            },
            ErrorCategories::AuthError(e) => {
                let mut text = String::from_str("AuthError(\n    AuthError {\n        kind: \"");
                text.append(e.kind);
                text.append("\",\n        message: \"");
                text.append(e.message);
                text.append("\",\n    },\n)");
                text
            },
        }
    }
}

/// What an error stands for: its category and the named instance within it.
pub enum ErrorKind {
    Validation(validation::auth::ErrorVariants),
    Auth(auth::ErrorVariants),
    Internal(internal_server::ErrorVariants),
}

impl ErrorKind {
    /// Name of the category, as written into the envelope.
    pub open spec fn category(self) -> Seq<char> {
        match self {
            ErrorKind::Validation(_) => "ValidationError"@,
            ErrorKind::Auth(_) => "AuthError"@,
            ErrorKind::Internal(_) => "InternalError"@,
        }
    }
}

impl ErrorKind {
    /// The named error as a JSON object, without its envelope.
    pub open spec fn body_json(self) -> Seq<char> {
        match self {
            ErrorKind::Validation(rule) => "{\"field\":"@ + json_string_literal(rule.field())
                + ",\"message\":"@ + json_string_literal(rule.message()) + "}"@,
            ErrorKind::Auth(failure) => "{\"kind\":"@ + json_string_literal(failure.kind())
                + ",\"message\":"@ + json_string_literal(failure.message()) + "}"@,
            ErrorKind::Internal(part) => "{\"kind\":"@ + json_string_literal(part.kind()) + "}"@,
        }
    }

    /// The named error in its envelope, as JSON.
    pub open spec fn json_text(self) -> Seq<char> {
        "{\"error\":{\"kind\":"@ + json_string_literal(self.category()) + ",\"body\":"@
            + self.body_json() + "}}"@
    }
}

impl Error {
    /// The envelope holds the named error `kind` under the name of its category.
    pub open spec fn stands_for(&self, kind: ErrorKind) -> bool {
        &&& self.error.kind@ == kind.category()
        &&& match kind {
            ErrorKind::Validation(rule) => self.error.body matches ErrorCategories::ValidationError(e)
                && e.reports(rule),
            ErrorKind::Auth(failure) => self.error.body matches ErrorCategories::AuthError(e)
                && e.reports(failure),
            ErrorKind::Internal(part) => self.error.body matches ErrorCategories::InternalServerError(e)
                && e.reports(part),
        }
    }

    /// The envelope holds the validation error for `rule`.
    pub open spec fn is_validation(&self, rule: validation::auth::ErrorVariants) -> bool {
        self.stands_for(ErrorKind::Validation(rule))
    }

    /// The envelope holds the authentication error for `failure`.
    pub open spec fn is_auth(&self, failure: auth::ErrorVariants) -> bool {
        self.stands_for(ErrorKind::Auth(failure))
    }

    /// The envelope holds the internal error for `part`.
    pub open spec fn is_internal(&self, part: internal_server::ErrorVariants) -> bool {
        self.stands_for(ErrorKind::Internal(part))
    }

    /// The envelope as JSON: an object whose one member, `error`, holds the name of the
    /// category under `kind` and the error itself under `body`.
    pub open spec fn json_text(&self) -> Seq<char> {
        "{\"error\":{\"kind\":"@ + json_string_literal(self.error.kind@) + ",\"body\":"@
            + self.error.body.json_text() + "}}"@
    }

    /// Writes the envelope as JSON.
    pub fn to_json(&self) -> (text: String)
        ensures
            text@ == self.json_text(),
            forall|kind: ErrorKind| #[trigger] self.stands_for(kind) ==> text@ == kind.json_text(),
    {
        let mut text = String::from_str("{\"error\":{\"kind\":");
        text.append(quote(self.error.kind).as_str());
        text.append(",\"body\":");
        text.append(self.error.body.to_json().as_str());
        text.append("}}");
        text
    }

    /// The envelope as text for logs, over several lines.
    pub open spec fn display_text(&self) -> Seq<char> {
        "Error {\n            error: ApplicationError {\n                kind: "@ + self.error.kind@
            + ",\n                body: "@ + self.error.body.debug_text()
            + "\n            },\n        }"@
    }

    /// Writes the envelope as text for logs.
    pub fn to_string(&self) -> (text: String)
        ensures
            text@ == self.display_text(),
    {
        let mut text = String::from_str(
            "Error {\n            error: ApplicationError {\n                kind: ",
        );
        text.append(self.error.kind);
        text.append(",\n                body: ");
        text.append(self.error.body.to_debug_string().as_str());
        text.append("\n            },\n        }");
        text
    }

    /// The envelope holds one of the named errors, under the name of its category.
    pub open spec fn wf(&self) -> bool {
        exists|kind: ErrorKind| self.stands_for(kind)
    }
}

} // verus!
