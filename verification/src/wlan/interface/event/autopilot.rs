//! The autopilot for adapters: what to do when one arrives or leaves.

use crate::state::DeadReason;
use crate::supervisor::model::disconnects;
use crate::supervisor::{Action, Supervisor};
use crate::win::guid::Guid;
use crate::win::wlan::acm::notification::Code;
use crate::wlan::acm::NotificationWithInterface;
use vstd::prelude::*;

verus! {

fn disconnect_each(targets: &Vec<Guid>) -> (actions: Vec<Action>)
    ensures
        actions@ == disconnects(targets@),
{
    let mut actions: Vec<Action> = Vec::new();
    let mut i: usize = 0;
    while i < targets.len()
        invariant
            i <= targets@.len(),
            actions@ == disconnects(targets@.take(i as int)),
        decreases targets@.len() - i,
    {
        actions.push(Action::Disconnect(targets[i]));
        assert(actions@ =~= disconnects(targets@.take(i + 1)));
        i = i + 1;
    }
    assert(targets@.take(i as int) =~= targets@);
    actions
}

impl Supervisor {
    /// Reacts to an event about an adapter.
    ///
    /// When an adapter has arrived, the most preferred adapter is taken into
    /// use. If that is a new one, every other adapter is to be disconnected,
    /// the host is alive, and everything about networks begins anew.
    ///
    /// When an adapter has left, no network is known any more. If it was the
    /// one in use and no adapter is left, none is in use any more, everything
    /// about networks is shut down, and the host goes dead for want of an
    /// adapter. If adapters are left, the most preferred one is taken into
    /// use; if that is a new one, the host is alive and everything about
    /// networks begins anew. If none is left and the one in use was another,
    /// the host goes dead for want of an adapter.
    ///
    /// A host that is dead already for a reason that stands stays as it is.
    /// Every other event is ignored.
    pub fn interface_autopilot(&mut self, event: &NotificationWithInterface) -> (actions: Vec<
        Action,
    >)
        ensures
            final(self)@ == old(self)@.interface_reacted(*event),
            actions@ == old(self)@.interface_actions(*event),
    {
        match event.code {
            Code::InterfaceArrival => {
                match self.interface.select(
                    &self.interfaces,
                    self.interfaces_config.priority.as_slice(),
                ) {
                    Some(guid) => {
                        let targets = self.interfaces.disconnect_all_except(&guid);
                        let mut actions = disconnect_each(&targets);
                        let _revived = self.state.alive();
                        let mut more = self.network_restart();
                        actions.append(&mut more);
                        actions
                    },
                    None => Vec::new(),
                }
            },
            Code::InterfaceRemoval => {
                self.networks.clear();
                assert(self@.networks =~= Seq::empty());
                let was_chosen = self.interface.is_guid_chosen(&event.interface.guid);
                if was_chosen && self.interfaces.is_empty() {
                    let died = self.state.dead(DeadReason::NoInterface).is_ok();
                    let mut actions = self.network_end();
                    let _unchosen = self.interface.unchoose();
                    if died {
                        actions.push(Action::Report(DeadReason::NoInterface));
                    }
                    assert(actions@ =~= old(self)@.interface_actions(*event));
                    actions
                } else if !self.interfaces.is_empty() {
                    match self.interface.select(
                        &self.interfaces,
                        self.interfaces_config.priority.as_slice(),
                    ) {
                        Some(_guid) => {
                            let _revived = self.state.alive();
                            self.network_restart()
                        },
                        None => Vec::new(),
                    }
                } else {
                    let mut actions: Vec<Action> = Vec::new();
                    if self.state.dead(DeadReason::NoInterface).is_ok() {
                        actions.push(Action::Report(DeadReason::NoInterface));
                    }
                    assert(actions@ =~= old(self)@.interface_actions(*event));
                    actions
                }
            },
            _ => Vec::new(),
        }
    }
}

} // verus!
