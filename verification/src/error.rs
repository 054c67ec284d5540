//! The failures a call into this library can end in.

use vstd::prelude::*;
use vstd::string::StringExecFns;
use crate::text::concat;

verus! {

/// Why a value was refused or a call to Plaid did not produce an answer.
///
/// A reply in which Plaid itself rejects a request is no `PlaidError`: it is
/// decoded and handed back as [`crate::Either::Right`].
#[derive(Debug)]
pub enum PlaidError {
    /// The text is not a date of the form `YYYY-MM-DD`; it is kept as given.
    InvalidDateOfBirth(String),
    /// The text is not an E.164 phone number; it is kept as given.
    InvalidPhoneNumber(String),
    /// The transport could not deliver the request or the reply; the text is
    /// the transport's own account of the fault.
    Transport(String),
    /// The request could not be written as JSON.
    Serialization,
    /// The body of a reply is not JSON of the shape that its status calls for.
    Deserialization,
}

impl PlaidError {
    /// Validation failures are the caller's to correct before anything is sent.
    pub open spec fn is_validation(&self) -> bool {
        self is InvalidDateOfBirth || self is InvalidPhoneNumber
    }

    /// The text a user is shown for this error.
    pub open spec fn message_text(&self) -> Seq<char> {
        match self {
            PlaidError::InvalidDateOfBirth(raw) => "Invalid date of birth: "@ + raw@,
            PlaidError::InvalidPhoneNumber(raw) => "Invalid phone number: "@ + raw@,
            PlaidError::Transport(fault) => fault@,
            PlaidError::Serialization => "request could not be written as JSON"@,
            PlaidError::Deserialization => "reply could not be read as JSON of the expected shape"@,
        }
    }

    pub fn validation(&self) -> (yes: bool)
        ensures
            yes == self.is_validation(),
    {
        match self {
            PlaidError::InvalidDateOfBirth(_) => true,
            PlaidError::InvalidPhoneNumber(_) => true,
            _ => false,
        }
    }

    pub fn message(&self) -> (text: String)
        ensures
            text@ == self.message_text(),
    {
        match self {
            PlaidError::InvalidDateOfBirth(raw) => concat("Invalid date of birth: ", raw.as_str()),
            PlaidError::InvalidPhoneNumber(raw) => concat("Invalid phone number: ", raw.as_str()),
            PlaidError::Transport(fault) => fault.clone(),
            PlaidError::Serialization => String::from_str("request could not be written as JSON"),
            PlaidError::Deserialization => String::from_str(
                "reply could not be read as JSON of the expected shape",
            ),
        }
    }
}

} // verus!
