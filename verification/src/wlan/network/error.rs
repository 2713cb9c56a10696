//! What can go wrong when the networks in range are read.

use crate::win::NativeError;
use crate::wlan::interface;
use vstd::prelude::*;

verus! {

/// Why the list of networks in range could not be refreshed.
#[derive(Debug, Clone, Copy, PartialEq, Eq, Structural)]
pub enum UpdateError {
    /// The service failed.
    Win(NativeError),
    /// There is no adapter to ask.
    Interface(interface::Error),
}

} // verus!
