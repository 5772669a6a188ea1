//! The structured errors of the dispatcher.

use vstd::prelude::*;

verus! {

/// Everything that can go wrong while configuring or invoking the registry.
///
/// `DuplicateRegistration` is a configuration error raised at startup;
/// `CommandNotFound` and `InvalidArguments` are per-invocation errors that are
/// surfaced to the host instead of crashing it.
#[derive(Debug, Clone, Copy, PartialEq, Eq, Structural)]
pub enum DispatchError {
    DuplicateRegistration,
    CommandNotFound,
    InvalidArguments,
}

impl DispatchError {
    /// A short human-readable description of the error.
    pub fn message(&self) -> (m: String)
        ensures
            *self == DispatchError::DuplicateRegistration ==> m@ == "duplicate registration"@,
            *self == DispatchError::CommandNotFound ==> m@ == "command not found"@,
            *self == DispatchError::InvalidArguments ==> m@ == "invalid arguments"@,
    {
        match self {
            DispatchError::DuplicateRegistration => String::from_str("duplicate registration"),
            DispatchError::CommandNotFound => String::from_str("command not found"),
            DispatchError::InvalidArguments => String::from_str("invalid arguments"),
        }
    }
}

} // verus!
