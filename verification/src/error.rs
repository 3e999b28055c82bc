//! Error types of the toolkit.

use vstd::prelude::*;

verus! {

/// A failure reported by the operating system while creating a resource.
#[derive(Clone, Copy, Debug, PartialEq, Eq, Structural)]
pub enum SystemError {
    FontCreation,
}

/// A toolkit error: currently every error is a system error.
#[derive(Clone, Copy, Debug, PartialEq, Eq, Structural)]
pub enum Error {
    System(SystemError),
}

/// An error of the high-level control layer.
#[derive(Clone, Debug, PartialEq, Eq)]
pub enum NwgError {
    InitializationError(String),
}

impl NwgError {
    /// Wraps a message into an initialization error.
    pub fn initialization(msg: &str) -> (r: NwgError)
        ensures
            r matches NwgError::InitializationError(m) && m@ == msg@,
    {
        NwgError::InitializationError(msg.to_owned())
    }
}

} // verus!
