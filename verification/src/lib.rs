//! A host-application command dispatcher: a registry of named commands that an
//! external host can invoke with a list of argument values, receiving either a
//! result value or a structured error.

pub mod error;
pub mod greet;
pub mod registry;
pub mod value;
