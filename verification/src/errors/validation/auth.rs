use vstd::prelude::*;

use super::ValidationError;

verus! {

/// The rules a registration or login payload can break, in the order in which they are checked.
#[derive(Clone, Copy, Debug, PartialEq, Eq, Structural)]
pub enum ErrorVariants {
    DisplaynameLength,
    UsernameLength,
    EmailLength,
    EmailInvalid,
    PasswordWeak,
}

impl ErrorVariants {
    /// Position of the rule in the checking order: a rule with a smaller rank is checked first.
    pub open spec fn rank(self) -> nat {
        match self {
            ErrorVariants::DisplaynameLength => 0,
            ErrorVariants::UsernameLength => 1,
            ErrorVariants::EmailLength => 2,
            ErrorVariants::EmailInvalid => 3,
            ErrorVariants::PasswordWeak => 4,
        }
    }

    /// Name of the payload field that the rule speaks of.
    pub open spec fn field(self) -> Seq<char> {
        match self {
            ErrorVariants::DisplaynameLength => "displayname"@,
            ErrorVariants::UsernameLength => "username"@,
            ErrorVariants::EmailLength => "email"@,
            ErrorVariants::EmailInvalid => "email"@,
            ErrorVariants::PasswordWeak => "password"@,
        }
    }

    /// What the rule asks for, as told to the client.
    pub open spec fn message(self) -> Seq<char> {
        match self {
            ErrorVariants::DisplaynameLength => "displayname must be 3 to 128 characters in length"@,
            ErrorVariants::UsernameLength => "username must be 3 to 128 characters in length"@,
            ErrorVariants::EmailLength => "email must be 6 to 256 characters in length"@,
            ErrorVariants::EmailInvalid => "email is invalid"@,
            ErrorVariants::PasswordWeak => "password must contain at least: 1 upper case letter, 1 lower case letter, 1 number or special character and must be between 8 and 128 characters in length"@,
        }
    }

    /// The validation error that reports this rule.
    pub fn to_validation_error(self) -> (e: ValidationError)
        ensures
            e.reports(self),
    {
        match self {
            ErrorVariants::DisplaynameLength => ValidationError {
                field: "displayname",
                message: "displayname must be 3 to 128 characters in length",
            },
            ErrorVariants::UsernameLength => ValidationError {
                field: "username",
                message: "username must be 3 to 128 characters in length",
            },
            ErrorVariants::EmailLength => ValidationError {
                field: "email",
                message: "email must be 6 to 256 characters in length",
            },
            ErrorVariants::EmailInvalid => ValidationError {
                field: "email",
                message: "email is invalid",
            },
            ErrorVariants::PasswordWeak => ValidationError {
                field: "password",
                message: "password must contain at least: 1 upper case letter, 1 lower case letter, 1 number or special character and must be between 8 and 128 characters in length",
            },
        }
    }
}

/// Two rules with the same rank are the same rule.
pub proof fn lemma_rank_identifies_rule(a: ErrorVariants, b: ErrorVariants)
    requires
        a.rank() == b.rank(),
    ensures
        a == b,
{
}

} // verus!
