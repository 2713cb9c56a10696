//! The loop that waits for a network: it scans at intervals while no
//! configured network is in range.

use crate::supervisor::model::WAITER_PAUSE_MS;
use crate::supervisor::{Supervisor, WaiterEvent, WaiterRequest};
use crate::wlan::event::Loop;
use vstd::prelude::*;

verus! {

impl Supervisor {
    /// Says what the loop that waits for a network is to do after `event`.
    ///
    /// At every tick the adapter in use scans. After the scan a round of
    /// choosing is run if a configured network is in range. The loop ends
    /// when a round joins a network, and when no adapter is in use; otherwise
    /// it pauses for a second until the next tick.
    pub fn waiter_loop(&mut self, event: WaiterEvent) -> (request: WaiterRequest)
        ensures
            final(self)@ == old(self)@.waited(event),
            request == old(self)@.waiter_request(event),
    {
        let request = match event {
            WaiterEvent::Tick => match self.interface.get() {
                Some(guid) => WaiterRequest::Scan { on: *guid },
                None => WaiterRequest::Close,
            },
            WaiterEvent::Scanned => {
                if self.networks.cfg_networks_available(self.wifi_config.networks.as_slice()) {
                    WaiterRequest::Choose
                } else {
                    WaiterRequest::Wait { after_ms: WAITER_PAUSE_MS }
                }
            },
            WaiterEvent::Chosen { joined } => {
                if joined {
                    WaiterRequest::Close
                } else {
                    WaiterRequest::Wait { after_ms: WAITER_PAUSE_MS }
                }
            },
        };
        match request {
            WaiterRequest::Close => {
                let _ran = self.loops.close(Loop::Waiter);
            },
            _ => {},
        }
        request
    }
}

} // verus!
