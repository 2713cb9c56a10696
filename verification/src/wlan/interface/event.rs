//! Events about adapters.

pub mod acm;
pub mod autopilot;

use crate::supervisor::Supervisor;
use crate::win::guid::Guid;
use vstd::prelude::*;

verus! {

impl Supervisor {
    /// Tells whether an event on the adapter identified by `guid` concerns
    /// the adapter in use.
    pub fn is_relevant(&self, guid: &Guid) -> (yes: bool)
        ensures
            yes == (self@.interface == Some(*guid)),
    {
        self.interface.is_guid_chosen(guid)
    }
}

} // verus!
