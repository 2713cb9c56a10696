//! What can go wrong around the adapter in use.

use vstd::prelude::*;

verus! {

/// A request that needs an adapter in use found none.
#[derive(Debug, Clone, Copy, PartialEq, Eq, Structural)]
pub enum Error {
    /// No adapter is chosen.
    NotChosen,
}

} // verus!
