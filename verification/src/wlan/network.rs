//! Networks: the ones in range, and the one joined.

pub mod chosen;
pub mod error;
pub mod event;
pub mod list;

pub use error::UpdateError;

use crate::supervisor::{Action, Supervisor};
use crate::wlan::event::Loop;
use vstd::prelude::*;

verus! {

impl Supervisor {
    /// Shuts down everything about networks: the loops for networks that run
    /// are to be aborted, no network is chosen any more, and none is known.
    pub fn network_end(&mut self) -> (actions: Vec<Action>)
        ensures
            final(self)@ == old(self)@.network_ended(),
            actions@ == old(self)@.network_end_actions(),
    {
        let mut actions: Vec<Action> = Vec::new();
        if self.loops.close(Loop::NetworkAutopilot) {
            actions.push(Action::Abort(Loop::NetworkAutopilot));
        }
        if self.loops.close(Loop::Pinger) {
            actions.push(Action::Abort(Loop::Pinger));
        }
        if self.loops.close(Loop::Waiter) {
            actions.push(Action::Abort(Loop::Waiter));
        }
        if self.network.is_chosen() {
            let _forgotten = self.network.unchoose();
        }
        self.networks.clear();
        assert(self@.networks =~= Seq::empty());
        assert(actions@ =~= old(self)@.network_end_actions());
        actions
    }

    /// Sets everything about networks going: the autopilot for networks is to
    /// be started unless it runs, and the adapter in use is to scan and to
    /// list the networks in range.
    pub fn network_start(&mut self) -> (actions: Vec<Action>)
        ensures
            final(self)@ == old(self)@.network_started(),
            actions@ == old(self)@.network_start_actions(),
    {
        let mut actions: Vec<Action> = Vec::new();
        if !self.loops.works(Loop::NetworkAutopilot) {
            self.loops.spawn(Loop::NetworkAutopilot);
            actions.push(Action::Spawn(Loop::NetworkAutopilot));
        }
        match self.interface.get() {
            Some(guid) => {
                actions.push(Action::Scan(*guid));
                actions.push(Action::ListNetworks(*guid));
            },
            None => {},
        }
        assert(actions@ =~= old(self)@.network_start_actions());
        actions
    }

    /// Begins anew on everything about networks: shuts it down, then sets it going.
    pub fn network_restart(&mut self) -> (actions: Vec<Action>)
        ensures
            final(self)@ == old(self)@.network_ended().network_started(),
            actions@ == old(self)@.restart_actions(),
    {
        let mut actions = self.network_end();
        let mut more = self.network_start();
        actions.append(&mut more);
        actions
    }
}

} // verus!
