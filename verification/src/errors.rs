//! The error taxonomy of the dispatch subsystem.

use vstd::prelude::*;

verus! {

/// Every failure the registry, dispatcher, worker lifecycle or wire codec
/// can surface to a caller.
#[derive(Clone, Copy, Debug, PartialEq, Eq, Structural)]
pub enum DispatchError {
    /// No worker is registered for the requested model name.
    NotFound,
    /// A worker for this model name is already registered.
    AlreadyExists,
    /// No response arrived before the dispatcher's bounded wait elapsed.
    Timeout,
    /// The backing child process could not be spawned; the worker is
    /// unusable thereafter.
    ProcessSpawnFailure,
    /// The reply frame was malformed or absent.
    WireDecodeFailure,
    /// A stop was requested but no child process handle was present.
    ChildProcessMissing,
}

impl DispatchError {
    /// A short description, for reporting at the boundary.
    pub fn describe(&self) -> (r: &'static str)
        ensures
            *self == DispatchError::NotFound ==> r@ == "Worker not found"@,
            *self == DispatchError::AlreadyExists ==> r@ == "Worker already exists"@,
            *self == DispatchError::Timeout ==> r@ == "No response found after waiting"@,
            *self == DispatchError::ProcessSpawnFailure ==> r@ == "Failed to start process"@,
            *self == DispatchError::WireDecodeFailure ==> r@ == "Failed to decode reply"@,
            *self == DispatchError::ChildProcessMissing ==> r@ == "Python process not found"@,
    {
        match self {
            DispatchError::NotFound => "Worker not found",
            DispatchError::AlreadyExists => "Worker already exists",
            DispatchError::Timeout => "No response found after waiting",
            DispatchError::ProcessSpawnFailure => "Failed to start process",
            DispatchError::WireDecodeFailure => "Failed to decode reply",
            DispatchError::ChildProcessMissing => "Python process not found",
        }
    }
}

} // verus!
