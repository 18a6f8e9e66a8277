use vstd::prelude::*;
use vstd::string::StringExecFns;

use crate::json::{json_string_literal, quote};

pub mod auth;

verus! {

/// A validation error: `field` names the payload field that failed, `message` says what was
/// asked of it.
#[derive(Debug)]
pub struct ValidationError {
    pub field: &'static str,
    pub message: &'static str,
}

impl ValidationError {
    /// This error is the report of the rule `rule`.
    pub open spec fn reports(&self, rule: auth::ErrorVariants) -> bool {
        self.field@ == rule.field() && self.message@ == rule.message()
    }

    /// This error is the report of one of the validator's rules.
    pub open spec fn wf(&self) -> bool {
        exists|rule: auth::ErrorVariants| self.reports(rule)
    }

    /// The error as a JSON object.
    pub open spec fn json_text(&self) -> Seq<char> {
        "{\"field\":"@ + json_string_literal(self.field@) + ",\"message\":"@ + json_string_literal(
            self.message@,
        ) + "}"@
    }

    /// Writes the error as a JSON object.
    pub fn to_json(&self) -> (text: String)
        ensures
            text@ == self.json_text(),
    {
        let mut text = String::from_str("{\"field\":");
        text.append(quote(self.field).as_str());
        text.append(",\"message\":");
        text.append(quote(self.message).as_str());
        text.append("}");
        text
    }

    /// The error as one line of text for logs.
    pub open spec fn display_text(&self) -> Seq<char> {
        "ValidationError { field: "@ + self.field@ + ", message: \""@ + self.message@ + "\" }"@
    }

    /// Writes the error as one line of text for logs.
    pub fn to_string(&self) -> (text: String)
        ensures
            text@ == self.display_text(),
    {
        let mut text = String::from_str("ValidationError { field: ");
        text.append(self.field);
        text.append(", message: \"");
        text.append(self.message);
        text.append("\" }");
        text
    }

    /// Wraps the error for the client.
    pub fn to_error(self) -> (e: super::Error)
        ensures
            e.error.kind@ == "ValidationError"@,
            e.error.body == super::ErrorCategories::ValidationError(self),
            forall|rule: auth::ErrorVariants| self.reports(rule) ==> e.is_validation(rule),
    {
        super::Error {
            error: super::ApplicationError {
                kind: "ValidationError",
                body: super::ErrorCategories::ValidationError(self),
            },
        }
    }
}

} // verus!
