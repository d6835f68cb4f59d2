//! Domain-level errors.
use vstd::prelude::*;
use crate::text::concat2;

verus! {

#[derive(Debug)]
pub enum DomainError {
    InvalidState(String),
}

impl DomainError {
    /// The error's message: `"invalid domain state: <detail>"`.
    pub fn to_message(&self) -> (s: String)
        ensures
            s@ == "invalid domain state: "@ + match self {
                DomainError::InvalidState(m) => m@,
            },
    {
        match self {
            DomainError::InvalidState(m) => concat2("invalid domain state: ", m.as_str()),
        }
    }
}

} // verus!
