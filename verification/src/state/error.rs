//! Refused changes of liveness.

use vstd::prelude::*;

verus! {

/// A change of liveness that was refused.
#[derive(Debug, Clone, Copy, PartialEq, Eq, Structural)]
pub enum Error {
    /// The host is alive already.
    AlreadyAlive,
    /// The host is dead already, for a reason that stands.
    AlreadyDead,
}

} // verus!
