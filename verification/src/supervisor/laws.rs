//! What holds of the supervisor whatever happens to it.

use crate::state::State;
use crate::supervisor::action::{PingerEvent, WaiterEvent};
use crate::supervisor::model::SupervisorView;
use crate::util::priority::{lemma_selection, successor};
use crate::win::wlan::acm::notification::Code;
use crate::win::wlan::acm::Notification;
use crate::win::wlan::{Interface, Network};
use crate::win::NativeResult;
use crate::wlan::acm::NotificationWithInterface;
use crate::wlan::network::chosen::rotated;
use crate::wlan::network::list::accessible;
use vstd::prelude::*;

verus! {

/// Anything that can happen to the supervisor: one variant for each of its
/// operations, with what the operation is given.
pub enum Event {
    /// `bootstrap`.
    Boot(NativeResult<Vec<Interface>>),
    /// `bootstrap_networks`.
    BootNetworks(NativeResult<Vec<Network>>),
    /// `demux`.
    Notified(Notification, Option<NativeResult<Vec<Interface>>>),
    /// `interface_autopilot`.
    Interface(NotificationWithInterface),
    /// `networks_listed`.
    Listed(NativeResult<Vec<Network>>),
    /// `network_autopilot`.
    Refreshed(NativeResult<Vec<Network>>),
    /// `network_chosen`.
    Chosen { revive: bool, joined: bool },
    /// `attempt_network`.
    Attempt,
    /// `conclude_network`.
    Outcome(NativeResult<bool>),
    /// `pinger_loop`.
    Pinger(PingerEvent),
    /// `waiter_loop`.
    Waiter(WaiterEvent),
    /// `network_end`.
    NetworkEnd,
    /// `network_start`.
    NetworkStart,
    /// `network_restart`.
    NetworkRestart,
}

impl SupervisorView {
    /// The state after `event`.
    pub open spec fn after(self, event: Event) -> SupervisorView {
        match event {
            Event::Boot(enumeration) => self.booted(enumeration),
            Event::BootNetworks(report) => self.booted_networks(report),
            Event::Notified(notification, enumeration) => self.demuxed(notification, enumeration),
            Event::Interface(event) => self.interface_reacted(event),
            Event::Listed(report) => self.listed(report),
            Event::Refreshed(report) => self.network_reacted(report),
            Event::Chosen { revive, joined } => self.chosen(revive, joined),
            Event::Attempt => self.attempting(),
            Event::Outcome(outcome) => self.attempted(outcome),
            Event::Pinger(event) => self.pinged(event),
            Event::Waiter(event) => self.waited(event),
            Event::NetworkEnd => self.network_ended(),
            Event::NetworkStart => self.network_started(),
            Event::NetworkRestart => self.network_ended().network_started(),
        }
    }

    /// The state after `events`, one after the other.
    pub open spec fn run(self, events: Seq<Event>) -> SupervisorView
        decreases events.len(),
    {
        if events.len() == 0 {
            self
        } else {
            self.run(events.drop_last()).after(events.last())
        }
    }

    /// The enumeration of the adapters that `event` brings, if the supervisor
    /// in this state takes one over from it.
    pub open spec fn enumerated(self, event: Event) -> Option<Seq<Interface>> {
        match event {
            Event::Boot(Ok(list)) => Some(list@),
            Event::Notified(notification, Some(Ok(list))) => if self.needs_enumeration(
                notification,
            ) {
                Some(list@)
            } else {
                None
            },
            _ => None,
        }
    }

    /// The adapters of the last enumeration that the supervisor took over in
    /// the course of `events`, or those it began with if it took over none.
    pub open spec fn latest_enumeration(self, events: Seq<Event>) -> Seq<Interface>
        decreases events.len(),
    {
        if events.len() == 0 {
            self.interfaces
        } else {
            match self.run(events.drop_last()).enumerated(events.last()) {
                Some(list) => list,
                None => self.latest_enumeration(events.drop_last()),
            }
        }
    }

    /// A host that is alive has an adapter in use and has chosen a network,
    /// and a host that has chosen a network has an adapter in use.
    pub open spec fn settled_alive(self) -> bool {
        &&& self.sound()
        &&& self.state == State::Alive ==> self.network is Some
    }

    /// `event` makes everything about networks end or begin anew: it is the
    /// operation that does so, or an adapter arrives or leaves and another
    /// adapter is taken into use.
    pub open spec fn ends_networks(self, event: Event) -> bool {
        match event {
            Event::NetworkEnd => true,
            Event::NetworkRestart => true,
            Event::Interface(event) => (event.code == Code::InterfaceArrival || (event.code
                == Code::InterfaceRemoval && self.interfaces.len() > 0)) && self.preferred()
                is Some,
            _ => false,
        }
    }

    /// `event` leaves a live host without a network: it makes everything
    /// about networks end or begin anew, and the host is alive afterwards.
    pub open spec fn strands(self, event: Event) -> bool {
        self.ends_networks(event) && self.after(event).state == State::Alive
    }

    /// No event of `events` leaves a live host without a network.
    pub open spec fn never_stranded(self, events: Seq<Event>) -> bool {
        forall|k: int|
            0 <= k < events.len() ==> !(#[trigger] self.run(events.take(k))).strands(events[k])
    }

    /// The state after a whole round of choosing whose first attempt connects.
    pub open spec fn joined_next(self) -> SupervisorView {
        self.attempting().attempted(Ok(true))
    }

    /// The network that a round of choosing joins is followed by itself in
    /// the rotation over the configured networks in range, as it is when it
    /// is the only one, or when none is in range and the round joins none.
    pub open spec fn settled(self) -> bool {
        let reachable = accessible(self.configured, self.networks);
        reachable.len() > 0 && self.interface is Some ==> reachable[successor(
            rotated(self.network, reachable),
            reachable,
        )] == reachable[successor(self.network, reachable)]
    }
}

/// No event makes a sound supervisor unsound.
pub proof fn lemma_sound_step(state: SupervisorView, event: Event)
    requires
        state.sound(),
    ensures
        state.after(event).sound(),
{
}

/// A host that is alive has an adapter in use, and so has a host that has
/// chosen a network: this holds after every sequence of events, from any
/// state in which it held, and so from the state in which a supervisor begins.
pub proof fn lemma_alive_has_interface(start: SupervisorView, events: Seq<Event>)
    requires
        start.sound(),
    ensures
        start.run(events).sound(),
        start.run(events).state == State::Alive ==> start.run(events).interface is Some,
        start.run(events).network is Some ==> start.run(events).interface is Some,
    decreases events.len(),
{
    if events.len() > 0 {
        lemma_alive_has_interface(start, events.drop_last());
        lemma_sound_step(start.run(events.drop_last()), events.last());
    }
}

/// A host that the autopilot for networks brings to life has chosen a
/// network, and has an adapter in use.
pub proof fn lemma_revived_with_network(state: SupervisorView, revive: bool, joined: bool)
    requires
        state.state != State::Alive,
        state.chosen(revive, joined).state == State::Alive,
    ensures
        state.chosen(revive, joined).network is Some,
        state.chosen(revive, joined).interface is Some,
{
}

/// An event that does not leave a live host without a network keeps what
/// holds of a live host: that it has an adapter in use and a network chosen.
pub proof fn lemma_alive_has_network_step(state: SupervisorView, event: Event)
    requires
        state.settled_alive(),
        !state.strands(event),
    ensures
        state.after(event).settled_alive(),
{
}

/// A host that is alive has an adapter in use and a network chosen, after
/// every sequence of events of which none makes the networks begin anew
/// under a live host. An adapter that is taken into use while the host is
/// alive, or brings it to life, leaves the host alive without a network until
/// the autopilot for networks has chosen one.
pub proof fn lemma_alive_has_network(start: SupervisorView, events: Seq<Event>)
    requires
        start.settled_alive(),
        start.never_stranded(events),
    ensures
        start.run(events).settled_alive(),
        start.run(events).state == State::Alive ==> start.run(events).interface is Some
            && start.run(events).network is Some,
    decreases events.len(),
{
    if events.len() > 0 {
        let before = events.drop_last();
        assert(start.never_stranded(before)) by {
            assert forall|k: int| 0 <= k < before.len() implies !(#[trigger] start.run(
                before.take(k),
            )).strands(before[k]) by {
                assert(before.take(k) =~= events.take(k));
            }
        }
        lemma_alive_has_network(start, before);
        assert(events.take(events.len() - 1) =~= before);
        assert(!start.run(events.take(events.len() - 1)).strands(events[events.len() - 1]));
        lemma_alive_has_network_step(start.run(before), events.last());
    }
}

/// After every sequence of events, the adapters known are those of the last
/// enumeration that the supervisor took over, and it takes over every
/// successful enumeration that it asked for.
pub proof fn lemma_list_is_latest_enumeration(start: SupervisorView, events: Seq<Event>)
    ensures
        start.run(events).interfaces == start.latest_enumeration(events),
    decreases events.len(),
{
    if events.len() > 0 {
        lemma_list_is_latest_enumeration(start, events.drop_last());
        let before = start.run(events.drop_last());
        match events.last() {
            Event::Interface(event) => {
                assert(before.interface_reacted(event).interfaces == before.interfaces);
            },
            _ => {},
        }
    }
}

/// A successful enumeration that the demultiplexer asked for becomes the
/// list of the adapters known.
pub proof fn lemma_enumeration_taken_over(
    state: SupervisorView,
    notification: Notification,
    list: Vec<Interface>,
)
    requires
        state.needs_enumeration(notification),
    ensures
        state.demuxed(notification, Some(Ok(list))).interfaces == list@,
{
}

/// Choosing again, with the same networks in range and with attempts that
/// connect, joins the same network again, provided that this network is
/// followed by itself in the rotation.
pub proof fn lemma_choosing_again(state: SupervisorView)
    requires
        state.settled(),
    ensures
        state.joined_next().joined_next() == state.joined_next(),
{
    let reachable = accessible(state.configured, state.networks);
    if reachable.len() > 0 && state.interface is Some {
        lemma_selection(state.network, reachable);
        lemma_selection(rotated(state.network, reachable), reachable);
    }
}

/// Where the network that a round of choosing joins is followed by another
/// in the rotation, choosing again joins that other network.
pub proof fn lemma_choosing_again_rotates(state: SupervisorView)
    requires
        !state.settled(),
    ensures
        state.joined_next().joined_next().network != state.joined_next().network,
{
    let reachable = accessible(state.configured, state.networks);
    lemma_selection(state.network, reachable);
    lemma_selection(rotated(state.network, reachable), reachable);
}

} // verus!
