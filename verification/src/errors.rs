//! The failures this layer surfaces; each wraps what the backend reported,
//! and none is fatal to the process.

use vstd::prelude::*;

verus! {

/// Why a bus operation failed.
#[derive(Clone, Copy, PartialEq, Eq, Structural, Debug)]
pub enum BusError {
    /// The consumer resource behind the handle is no longer usable.
    ResourceInvalid,
    /// The send was not confirmed within the configured timeout.
    Timeout,
    /// The transport reported a failure.
    Transport,
}

impl BusError {
    /// True exactly on the timeout classification.
    pub fn is_timeout(&self) -> (b: bool)
        ensures
            b == (*self == BusError::Timeout),
    {
        matches!(self, BusError::Timeout)
    }
}

} // verus!
