//! The loop that pings: it keeps a run of pings going, and moves on to the
//! next network when the run stops.

use crate::supervisor::{PingerEvent, PingerRequest, Supervisor};
use crate::wlan::event::Loop;
use vstd::prelude::*;

verus! {

impl Supervisor {
    fn pinger_round(&self) -> (request: PingerRequest)
        ensures
            request == self@.pinger_round(),
    {
        match self.interface.get() {
            Some(guid) => {
                if self.pinger.has_no_ips() {
                    PingerRequest::Scan { on: *guid, refresh: true }
                } else {
                    PingerRequest::Monitor
                }
            },
            None => PingerRequest::Close,
        }
    }

    /// Says what the loop that pings is to do after `event`.
    ///
    /// A round begins with a run of pings if there is an address to ping.
    /// If there is none, the adapter in use scans, a round of choosing a
    /// network is run, and the host names are resolved afresh; a run of pings
    /// follows if that gave an address. When a run of pings has stopped, or
    /// could not begin for want of an address, the adapter scans and a round
    /// of choosing is run, and the next round begins. The loop ends when a
    /// round of choosing joins no network, and when no adapter is in use.
    pub fn pinger_loop(&mut self, event: PingerEvent) -> (request: PingerRequest)
        ensures
            final(self)@ == old(self)@.pinged(event),
            request == old(self)@.pinger_request(event),
    {
        let request = match event {
            PingerEvent::Started => self.pinger_round(),
            PingerEvent::Scanned { refresh } => PingerRequest::Choose { refresh },
            PingerEvent::Chosen { joined, refresh } => {
                if !joined {
                    PingerRequest::Close
                } else if refresh {
                    PingerRequest::Resolve
                } else {
                    self.pinger_round()
                }
            },
            PingerEvent::Resolved(answers) => {
                self.pinger.update_ips(answers.as_slice());
                match self.interface.get() {
                    Some(guid) => {
                        if self.pinger.has_no_ips() {
                            PingerRequest::Scan { on: *guid, refresh: false }
                        } else {
                            PingerRequest::Monitor
                        }
                    },
                    None => PingerRequest::Close,
                }
            },
            PingerEvent::Monitored => match self.interface.get() {
                Some(guid) => PingerRequest::Scan { on: *guid, refresh: false },
                None => PingerRequest::Close,
            },
        };
        match request {
            PingerRequest::Close => {
                let _ran = self.loops.close(Loop::Pinger);
            },
            _ => {},
        }
        request
    }
}

} // verus!
