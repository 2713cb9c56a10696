//! The autopilot for networks: what to do when the list of the networks in
//! range has been refreshed.

use crate::state::DeadReason;
use crate::supervisor::{Action, Supervisor};
use crate::win::guid::Guid;
use crate::win::wlan::acm::notification::Code;
use crate::win::wlan::Network;
use crate::win::NativeResult;
use crate::wlan::acm::NotificationWithInterface;
use crate::wlan::event::Loop;
use crate::wlan::network::UpdateError;
use vstd::prelude::*;

verus! {

impl Supervisor {
    /// Takes over a report of the networks in range of the adapter in use.
    /// A failed report, or one that comes when no adapter is in use, changes
    /// nothing and is handed back as a failure.
    pub fn networks_listed(&mut self, report: NativeResult<Vec<Network>>) -> (done: Result<
        (),
        UpdateError,
    >)
        ensures
            final(self)@ == old(self)@.listed(report),
            done is Ok <==> old(self)@.usable(report),
    {
        self.networks.update(&self.interface, report)
    }

    /// The adapter whose networks are to be listed for the autopilot after
    /// `event`: the one in use, when the event says that its list of networks
    /// was refreshed. The report is to be handed to `network_autopilot`.
    pub fn network_autopilot_wants(&self, event: &NotificationWithInterface) -> (adapter: Option<
        Guid,
    >)
        ensures
            adapter == self@.wants_listing(*event),
    {
        match event.code {
            Code::ScanListRefresh => {
                if self.interface.is_guid_chosen(&event.interface.guid) {
                    Some(event.interface.guid)
                } else {
                    None
                }
            },
            _ => None,
        }
    }

    /// Reacts to a fresh report of the networks in range of the adapter in use.
    ///
    /// The report is taken over; a failed one changes nothing. Then, in this order:
    /// - a host dead for want of a network, with a configured network in
    ///   range: the loop that waits is to be aborted if it runs, and a round
    ///   of choosing is to be run that revives the host;
    /// - no configured network in range, no network chosen, and a host that
    ///   may go dead: it goes dead for want of a network, and the loop that
    ///   waits is to be started unless it runs;
    /// - a configured network in range and a host not yet started: a round of
    ///   choosing is to be run that revives the host;
    /// - a configured network in range, a host alive and no network chosen:
    ///   a round of choosing is to be run.
    pub fn network_autopilot(&mut self, report: NativeResult<Vec<Network>>) -> (actions: Vec<
        Action,
    >)
        ensures
            final(self)@ == old(self)@.network_reacted(report),
            actions@ == old(self)@.network_actions(report),
    {
        let mut actions: Vec<Action> = Vec::new();
        if self.networks.update(&self.interface, report).is_err() {
            return actions;
        }
        let available = self.networks.cfg_networks_available(self.wifi_config.networks.as_slice());
        let (no_network, uninitialized) = match self.state.get_dead_reason() {
            Some(reason) => (reason.is_no_network(), reason.is_uninitialized()),
            None => (false, false),
        };
        if no_network && available {
            if self.loops.close(Loop::Waiter) {
                actions.push(Action::Abort(Loop::Waiter));
            }
            actions.push(Action::Choose { revive: true });
        } else if !available && !self.network.is_chosen() && self.state.can_die() {
            let _shown = self.state.dead(DeadReason::NoNetwork);
            actions.push(Action::Report(DeadReason::NoNetwork));
            if !self.loops.works(Loop::Waiter) {
                self.loops.spawn(Loop::Waiter);
                actions.push(Action::Spawn(Loop::Waiter));
            }
        } else if available && uninitialized {
            actions.push(Action::Choose { revive: true });
        } else if available && self.state.is_alive() && !self.network.is_chosen() {
            actions.push(Action::Choose { revive: false });
        }
        assert(actions@ =~= old(self)@.network_actions(report));
        actions
    }

    /// Takes note of how a round of choosing ended that the autopilot asked for.
    ///
    /// When a network was joined, and the supervisor still holds it and an
    /// adapter in use, the host is alive if the round was to revive it, and
    /// the loop that pings is to be started unless it runs. Otherwise nothing
    /// changes.
    pub fn network_chosen(&mut self, revive: bool, joined: bool) -> (actions: Vec<Action>)
        ensures
            final(self)@ == old(self)@.chosen(revive, joined),
            actions@ == old(self)@.chosen_actions(joined),
    {
        let mut actions: Vec<Action> = Vec::new();
        if joined && self.interface.is_chosen() && self.network.is_chosen() {
            if revive {
                let _revived = self.state.alive();
            }
            if !self.loops.works(Loop::Pinger) {
                self.loops.spawn(Loop::Pinger);
                actions.push(Action::Spawn(Loop::Pinger));
            }
        }
        assert(actions@ =~= old(self)@.chosen_actions(joined));
        actions
    }
}

} // verus!
