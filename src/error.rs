//! Errors of the sandbox.

use vstd::prelude::*;

verus! {

/// Error that can occur while using the sandbox.
#[derive(Debug, Clone, Copy, PartialEq, Eq, Structural)]
pub enum Error {
    /// Module is not valid, couldn't be instantiated.
    Module,
    /// Access to a memory or table was made with an address or an index which is out of bounds.
    OutOfBounds,
    /// Failed to invoke the start function or an exported function for some reason.
    Execution,
}

/// Error that a host function reports to abort the guest with a trap.
#[derive(Debug, Clone, Copy, PartialEq, Eq, Structural)]
pub struct HostError;

impl From<Error> for HostError {
    fn from(e: Error) -> (r: HostError)
        ensures
            r == HostError,
    {
        HostError
    }
}

impl vstd::std_specs::convert::FromSpecImpl<Error> for HostError {
    open spec fn obeys_from_spec() -> bool {
        true
    }

    open spec fn from_spec(e: Error) -> HostError {
        HostError
    }
}

} // verus!
