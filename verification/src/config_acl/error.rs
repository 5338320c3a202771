//! The error of reading and checking a raw gateway configuration.
use vstd::prelude::*;

verus! {

#[derive(Debug, Clone, PartialEq, Eq)]
pub enum InfrastructureAclError {
    /// The TOML text could not be read into the raw configuration shapes.
    TomlDeserialize(String),
    /// The raw configuration breaks one of the gateway's rules.
    Validation(String),
}

impl InfrastructureAclError {
    /// The human-readable message carried by the error.
    pub fn message(&self) -> (m: String)
        ensures
            m@ == self.spec_message(),
    {
        match self {
            InfrastructureAclError::TomlDeserialize(s) => s.clone(),
            InfrastructureAclError::Validation(s) => s.clone(),
        }
    }

    pub open spec fn spec_message(&self) -> Seq<char> {
        match self {
            InfrastructureAclError::TomlDeserialize(s) => s@,
            InfrastructureAclError::Validation(s) => s@,
        }
    }
}

/// `r` is the outcome that the optional error message `e` describes: success
/// when there is no message, a validation error carrying exactly that message
/// otherwise.
pub open spec fn acl_outcome(r: Result<(), InfrastructureAclError>, e: Option<Seq<char>>) -> bool {
    match r {
        Ok(_) => e is None,
        Err(InfrastructureAclError::Validation(m)) => e == Some(m@),
        Err(InfrastructureAclError::TomlDeserialize(_)) => false,
    }
}

/// A validation error carrying `m`.
pub fn validation_error(m: String) -> (r: Result<(), InfrastructureAclError>)
    ensures
        acl_outcome(r, Some(m@)),
{
    Err(InfrastructureAclError::Validation(m))
}

} // verus!
