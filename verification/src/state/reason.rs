//! Why the host is dead.

use vstd::prelude::*;

verus! {

/// Why the host is not on a usable network.
#[derive(Debug, Clone, Copy, PartialEq, Eq, Structural)]
pub enum DeadReason {
    /// The supervisor has not started yet.
    Uninitialized,
    /// No wireless adapter is present.
    NoInterface,
    /// None of the configured networks can be joined.
    NoNetwork,
}

impl DeadReason {
    pub fn is_uninitialized(&self) -> (yes: bool)
        ensures
            yes == (*self == DeadReason::Uninitialized),
    {
        if let DeadReason::Uninitialized = *self {
            true
        } else {
            false
        }
    }

    pub fn is_no_interface(&self) -> (yes: bool)
        ensures
            yes == (*self == DeadReason::NoInterface),
    {
        if let DeadReason::NoInterface = *self {
            true
        } else {
            false
        }
    }

    pub fn is_no_network(&self) -> (yes: bool)
        ensures
            yes == (*self == DeadReason::NoNetwork),
    {
        if let DeadReason::NoNetwork = *self {
            true
        } else {
            false
        }
    }
}

} // verus!
