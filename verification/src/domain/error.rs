//! Failures of domain construction and parsing.

use vstd::prelude::*;

use crate::text;

verus! {

/// An error produced while building or parsing a domain value.
#[derive(Debug, PartialEq, Eq)]
pub enum DomainError {
    /// A string is not a well-formed Ethereum address.
    InvalidAddress(String),
    /// A string is not a well-formed identifier.
    InvalidId(String),
    /// A value breaks a domain rule.
    Validation(String),
}

impl DomainError {
    /// The text shown for the error.
    pub open spec fn message(self) -> Seq<char> {
        match self {
            DomainError::InvalidAddress(s) => "invalid Ethereum address: "@ + s@,
            DomainError::InvalidId(s) => "invalid id: "@ + s@,
            DomainError::Validation(s) => "validation error: "@ + s@,
        }
    }

    /// Renders the error.
    pub fn to_string(&self) -> (r: String)
        ensures
            r@ == self.message(),
    {
        match self {
            DomainError::InvalidAddress(s) => text::join2("invalid Ethereum address: ", s.as_str()),
            DomainError::InvalidId(s) => text::join2("invalid id: ", s.as_str()),
            DomainError::Validation(s) => text::join2("validation error: ", s.as_str()),
        }
    }
}

impl Clone for DomainError {
    fn clone(&self) -> (r: Self)
        ensures
            r == *self,
    {
        match self {
            DomainError::InvalidAddress(s) => DomainError::InvalidAddress(s.clone()),
            DomainError::InvalidId(s) => DomainError::InvalidId(s.clone()),
            DomainError::Validation(s) => DomainError::Validation(s.clone()),
        }
    }
}

/// A domain error tells the whole of the text it is about.
pub proof fn domain_errors_tell_their_cause(s: String, a: String, b: String, c: String)
    requires
        call_ensures(DomainError::to_string, (&DomainError::InvalidAddress(s),), a),
        call_ensures(DomainError::to_string, (&DomainError::InvalidId(s),), b),
        call_ensures(DomainError::to_string, (&DomainError::Validation(s),), c),
    ensures
        text::ends_in(a@, s@) && text::ends_in(b@, s@) && text::ends_in(c@, s@),
{
    reveal_strlit("invalid Ethereum address: ");
    reveal_strlit("invalid id: ");
    reveal_strlit("validation error: ");
    text::what_comes_last_ends_the_text("invalid Ethereum address: "@, s@);
    text::what_comes_last_ends_the_text("invalid id: "@, s@);
    text::what_comes_last_ends_the_text("validation error: "@, s@);
}

} // verus!
