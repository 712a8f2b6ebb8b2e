//! Errors of the identity context.
use crate::shared::errors::RepositoryError;
use vstd::prelude::*;

verus! {

/// Errors specific to the identity bounded context.
#[derive(Debug, Clone)]
pub enum IdentityError {
    /// A user with this email already exists.
    EmailAlreadyExists(String),
    /// The provided credentials are invalid.
    InvalidCredentials,
    /// An input validation error.
    InvalidInput(String),
    /// An error from the persistence layer.
    Repository(RepositoryError),
}

impl IdentityError {
    /// Human-readable description of the error.
    pub fn message(&self) -> (r: String)
        ensures
            self matches IdentityError::EmailAlreadyExists(e) ==> r@ == "email already exists: "@
                + e@,
            self is InvalidCredentials ==> r@ == "invalid credentials"@,
            self matches IdentityError::InvalidInput(m) ==> r@ == "invalid input: "@ + m@,
            self matches IdentityError::Repository(e) ==> r@ == "repository error: "@
                + e.message_spec(),
    {
        match self {
            IdentityError::EmailAlreadyExists(e) => {
                let mut s = String::from_str("email already exists: ");
                s.append(e.as_str());
                s
            },
            IdentityError::InvalidCredentials => String::from_str("invalid credentials"),
            IdentityError::InvalidInput(m) => {
                let mut s = String::from_str("invalid input: ");
                s.append(m.as_str());
                s
            },
            IdentityError::Repository(e) => {
                let mut s = String::from_str("repository error: ");
                let m = e.message();
                s.append(m.as_str());
                s
            },
        }
    }
}

} // verus!
