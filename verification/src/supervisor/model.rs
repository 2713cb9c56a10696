//! The supervisor as a state machine: its state as plain mathematics, and
//! what each event makes of it.

use crate::cfg::{Ping, WiFiNetwork};
use crate::pinger::{gathered, SocketAddress};
use crate::state::{may_die, DeadReason, State};
use crate::supervisor::action::{Action, PingerEvent, PingerRequest, WaiterEvent, WaiterRequest};
use crate::win::guid::Guid;
use crate::win::wlan::acm::notification::Code;
use crate::win::wlan::acm::Notification;
use crate::win::wlan::{Interface, Network};
use crate::win::NativeResult;
use crate::wlan::acm::{resolved, NotificationWithInterface};
use crate::wlan::event::{Loop, LoopState, Loops};
use crate::wlan::interface::list::{all_except, sorted};
use crate::wlan::network::chosen::rotated;
use crate::wlan::network::list::accessible;
use vstd::prelude::*;

verus! {

/// Everything that the supervisor knows, apart from how it is stored.
pub struct SupervisorView {
    /// The textual identifiers of the preferred adapters, most preferred first.
    pub priority: Seq<Seq<char>>,
    /// The networks that may be joined, in the order of the configuration.
    pub configured: Seq<WiFiNetwork>,
    /// What to ping, and how.
    pub ping: Ping,
    /// Whether the host counts as alive.
    pub state: State,
    /// The adapters present.
    pub interfaces: Seq<Interface>,
    /// The adapter in use.
    pub interface: Option<Guid>,
    /// The description that the adapter in use had when it was chosen.
    pub interface_name: Option<Seq<char>>,
    /// The networks in range of the adapter in use.
    pub networks: Seq<Network>,
    /// The network joined or being joined.
    pub network: Option<Seq<char>>,
    /// Whether a round of choosing a network is under way.
    pub choosing: bool,
    /// The addresses to ping.
    pub ips: Seq<SocketAddress>,
    /// Which loops run.
    pub loops: Loops,
}

/// The pause between two scans of the loop that waits for a network, in milliseconds.
pub const WAITER_PAUSE_MS: u64 = 1000;

/// `action` where `wanted` holds, and nothing otherwise.
pub open spec fn when(wanted: bool, action: Action) -> Seq<Action> {
    if wanted {
        seq![action]
    } else {
        Seq::empty()
    }
}

/// One request to disconnect for each adapter, in order.
pub open spec fn disconnects(targets: Seq<Guid>) -> Seq<Action> {
    Seq::new(targets.len(), |i: int| Action::Disconnect(targets[i]))
}

impl SupervisorView {
    /// What holds of the supervisor at all times: a host that is alive has an
    /// adapter in use, and so has a host that has chosen a network.
    pub open spec fn sound(self) -> bool {
        &&& self.state == State::Alive ==> self.interface is Some
        &&& self.network is Some ==> self.interface is Some
    }

    /// Some configured network is in range.
    pub open spec fn available(self) -> bool {
        accessible(self.configured, self.networks).len() > 0
    }

    /// The state after an attempt to declare the host dead for `reason`.
    pub open spec fn died(self, reason: DeadReason) -> State {
        if may_die(self.state) {
            State::Dead(reason)
        } else {
            self.state
        }
    }

    /// The adapter that choosing anew would take into use, if it would take one.
    pub open spec fn preferred(self) -> Option<Interface> {
        let order = sorted(self.interfaces, self.priority);
        if order.len() == 0 || self.interface == Some(order[0].guid) {
            None
        } else {
            Some(order[0])
        }
    }

    /// The state with `adapter` in use.
    pub open spec fn using(self, adapter: Interface) -> SupervisorView {
        SupervisorView {
            interface: Some(adapter.guid),
            interface_name: Some(adapter.description@),
            ..self
        }
    }

    /// The fresh enumeration is taken over by the demultiplexer: it is a
    /// successful one, for an adapter that arrived, or for one that left and
    /// was known until now.
    pub open spec fn refreshes(
        self,
        notification: Notification,
        enumeration: Option<NativeResult<Vec<Interface>>>,
    ) -> bool {
        &&& enumeration matches Some(Ok(_))
        &&& (notification.code == Code::InterfaceArrival || (notification.code
            == Code::InterfaceRemoval && resolved(notification, self.interfaces) is Some))
    }

    /// The demultiplexer needs a fresh enumeration for this notification.
    pub open spec fn needs_enumeration(self, notification: Notification) -> bool {
        notification.code == Code::InterfaceArrival || (notification.code
            == Code::InterfaceRemoval && resolved(notification, self.interfaces) is Some)
    }

    /// The state after the demultiplexer has seen a notification.
    pub open spec fn demuxed(
        self,
        notification: Notification,
        enumeration: Option<NativeResult<Vec<Interface>>>,
    ) -> SupervisorView {
        if self.refreshes(notification, enumeration) {
            SupervisorView { interfaces: enumeration->0->Ok_0@, ..self }
        } else {
            self
        }
    }

    /// The event that the demultiplexer publishes for a notification, if any.
    ///
    /// An arrival is looked up among the adapters freshly enumerated, a
    /// removal among those known until now, and it is published only if the
    /// enumeration succeeded. A phase of a scan or of a connection is looked
    /// up among the adapters known. Nothing else is published, and nothing
    /// whose adapter is not found.
    pub open spec fn published(
        self,
        notification: Notification,
        enumeration: Option<NativeResult<Vec<Interface>>>,
    ) -> Option<NotificationWithInterface> {
        if notification.code == Code::InterfaceArrival {
            match enumeration {
                Some(Ok(list)) => resolved(notification, list@),
                _ => None,
            }
        } else if notification.code == Code::InterfaceRemoval {
            match enumeration {
                Some(Ok(_)) => resolved(notification, self.interfaces),
                _ => None,
            }
        } else if notification.code.network_scope() {
            resolved(notification, self.interfaces)
        } else {
            None
        }
    }

    /// The state after everything about networks has been shut down.
    pub open spec fn network_ended(self) -> SupervisorView {
        SupervisorView {
            loops: Loops {
                network_autopilot: LoopState::Stopped,
                pinger: LoopState::Stopped,
                waiter: LoopState::Stopped,
                ..self.loops
            },
            network: None,
            choosing: self.network is None && self.choosing,
            networks: Seq::empty(),
            ..self
        }
    }

    /// What shutting down everything about networks asks for.
    pub open spec fn network_end_actions(self) -> Seq<Action> {
        when(self.loops.running(Loop::NetworkAutopilot), Action::Abort(Loop::NetworkAutopilot))
            + when(self.loops.running(Loop::Pinger), Action::Abort(Loop::Pinger)) + when(
            self.loops.running(Loop::Waiter),
            Action::Abort(Loop::Waiter),
        )
    }

    /// The state after everything about networks has been set going.
    pub open spec fn network_started(self) -> SupervisorView {
        SupervisorView {
            loops: Loops { network_autopilot: LoopState::Running, ..self.loops },
            ..self
        }
    }

    /// What setting everything about networks going asks for.
    pub open spec fn network_start_actions(self) -> Seq<Action> {
        when(!self.loops.running(Loop::NetworkAutopilot), Action::Spawn(Loop::NetworkAutopilot))
            + match self.interface {
            Some(guid) => seq![Action::Scan(guid), Action::ListNetworks(guid)],
            None => Seq::empty(),
        }
    }

    /// The state after `adapter` was taken into use: the host is alive, and
    /// everything about networks begins anew.
    pub open spec fn switched(self, adapter: Interface) -> SupervisorView {
        (SupervisorView { state: State::Alive, ..self.using(adapter) }).network_ended().network_started()
    }

    /// What beginning anew on everything about networks asks for.
    pub open spec fn restart_actions(self) -> Seq<Action> {
        self.network_end_actions() + self.network_ended().network_start_actions()
    }

    /// The state after the autopilot for adapters has seen an event.
    pub open spec fn interface_reacted(self, event: NotificationWithInterface) -> SupervisorView {
        if event.code == Code::InterfaceArrival {
            match self.preferred() {
                Some(adapter) => self.switched(adapter),
                None => self,
            }
        } else if event.code == Code::InterfaceRemoval {
            let cleared = SupervisorView { networks: Seq::empty(), ..self };
            if self.interface == Some(event.interface.guid) && self.interfaces.len() == 0 {
                (SupervisorView {
                    interface: None,
                    interface_name: None,
                    state: self.died(DeadReason::NoInterface),
                    ..cleared
                }).network_ended()
            } else if self.interfaces.len() > 0 {
                match self.preferred() {
                    Some(adapter) => cleared.switched(adapter),
                    None => cleared,
                }
            } else {
                SupervisorView { state: self.died(DeadReason::NoInterface), ..cleared }
            }
        } else {
            self
        }
    }

    /// What the autopilot for adapters asks for after an event.
    pub open spec fn interface_actions(self, event: NotificationWithInterface) -> Seq<Action> {
        if event.code == Code::InterfaceArrival {
            match self.preferred() {
                Some(adapter) => disconnects(all_except(self.interfaces, adapter.guid))
                    + self.using(adapter).restart_actions(),
                None => Seq::empty(),
            }
        } else if event.code == Code::InterfaceRemoval {
            if self.interface == Some(event.interface.guid) && self.interfaces.len() == 0 {
                self.network_end_actions() + when(
                    may_die(self.state),
                    Action::Report(DeadReason::NoInterface),
                )
            } else if self.interfaces.len() > 0 {
                match self.preferred() {
                    Some(adapter) => self.using(adapter).restart_actions(),
                    None => Seq::empty(),
                }
            } else {
                when(may_die(self.state), Action::Report(DeadReason::NoInterface))
            }
        } else {
            Seq::empty()
        }
    }

    /// The state after a report of the networks in range has come in.
    pub open spec fn listed(self, report: NativeResult<Vec<Network>>) -> SupervisorView {
        match report {
            Ok(list) => if self.interface is Some {
                SupervisorView { networks: list@, ..self }
            } else {
                self
            },
            Err(_) => self,
        }
    }

    /// The adapter whose networks the autopilot for networks wants listed
    /// after an event: the one in use, when the event says that its list of
    /// networks was refreshed.
    pub open spec fn wants_listing(self, event: NotificationWithInterface) -> Option<Guid> {
        if event.code == Code::ScanListRefresh && self.interface == Some(event.interface.guid) {
            self.interface
        } else {
            None
        }
    }

    /// The report is one that the autopilot for networks can work with.
    pub open spec fn usable(self, report: NativeResult<Vec<Network>>) -> bool {
        report is Ok && self.interface is Some
    }

    /// The state after the autopilot for networks has seen a fresh report.
    pub open spec fn network_reacted(self, report: NativeResult<Vec<Network>>) -> SupervisorView {
        let fresh = self.listed(report);
        if !self.usable(report) {
            self
        } else if self.state == State::Dead(DeadReason::NoNetwork) && fresh.available() {
            SupervisorView { loops: Loops { waiter: LoopState::Stopped, ..self.loops }, ..fresh }
        } else if !fresh.available() && self.network is None && may_die(self.state) {
            SupervisorView {
                state: State::Dead(DeadReason::NoNetwork),
                loops: Loops { waiter: LoopState::Running, ..self.loops },
                ..fresh
            }
        } else {
            fresh
        }
    }

    /// What the autopilot for networks asks for after a fresh report.
    pub open spec fn network_actions(self, report: NativeResult<Vec<Network>>) -> Seq<Action> {
        let fresh = self.listed(report);
        if !self.usable(report) {
            Seq::empty()
        } else if self.state == State::Dead(DeadReason::NoNetwork) && fresh.available() {
            when(self.loops.running(Loop::Waiter), Action::Abort(Loop::Waiter)).push(
                Action::Choose { revive: true },
            )
        } else if !fresh.available() && self.network is None && may_die(self.state) {
            seq![Action::Report(DeadReason::NoNetwork)] + when(
                !self.loops.running(Loop::Waiter),
                Action::Spawn(Loop::Waiter),
            )
        } else if fresh.available() && self.state == State::Dead(DeadReason::Uninitialized) {
            seq![Action::Choose { revive: true }]
        } else if fresh.available() && self.state == State::Alive && self.network is None {
            seq![Action::Choose { revive: false }]
        } else {
            Seq::empty()
        }
    }

    /// The round of choosing that the autopilot for networks asked for has
    /// joined a network, and the supervisor still holds it.
    pub open spec fn settles(self, joined: bool) -> bool {
        joined && self.interface is Some && self.network is Some
    }

    /// The state after a round of choosing that the autopilot for networks asked for.
    pub open spec fn chosen(self, revive: bool, joined: bool) -> SupervisorView {
        if self.settles(joined) {
            SupervisorView {
                state: if revive {
                    State::Alive
                } else {
                    self.state
                },
                loops: Loops { pinger: LoopState::Running, ..self.loops },
                ..self
            }
        } else {
            self
        }
    }

    /// What is asked for after a round of choosing that the autopilot for networks asked for.
    pub open spec fn chosen_actions(self, joined: bool) -> Seq<Action> {
        when(
            self.settles(joined) && !self.loops.running(Loop::Pinger),
            Action::Spawn(Loop::Pinger),
        )
    }

    /// The state after an attempt to join the next network has begun.
    pub open spec fn attempting(self) -> SupervisorView {
        if self.interface is Some {
            SupervisorView {
                choosing: true,
                network: rotated(self.network, accessible(self.configured, self.networks)),
                ..self
            }
        } else {
            self
        }
    }

    /// The state after an attempt to join a network has ended.
    pub open spec fn attempted(self, outcome: NativeResult<bool>) -> SupervisorView {
        SupervisorView { choosing: self.choosing && !(outcome matches Ok(made) && made), ..self }
    }

    /// What the loop that pings does at the top of every round.
    pub open spec fn pinger_round(self) -> PingerRequest {
        match self.interface {
            Some(guid) => if self.ips.len() == 0 {
                PingerRequest::Scan { on: guid, refresh: true }
            } else {
                PingerRequest::Monitor
            },
            None => PingerRequest::Close,
        }
    }

    /// What the loop that pings is to do after an event.
    pub open spec fn pinger_request(self, event: PingerEvent) -> PingerRequest {
        match event {
            PingerEvent::Started => self.pinger_round(),
            PingerEvent::Scanned { refresh } => PingerRequest::Choose { refresh },
            PingerEvent::Chosen { joined, refresh } => if !joined {
                PingerRequest::Close
            } else if refresh {
                PingerRequest::Resolve
            } else {
                self.pinger_round()
            },
            PingerEvent::Resolved(answers) => match self.interface {
                Some(guid) => if gathered(self.ping.domains.mode, answers@).len() == 0 {
                    PingerRequest::Scan { on: guid, refresh: false }
                } else {
                    PingerRequest::Monitor
                },
                None => PingerRequest::Close,
            },
            PingerEvent::Monitored => match self.interface {
                Some(guid) => PingerRequest::Scan { on: guid, refresh: false },
                None => PingerRequest::Close,
            },
        }
    }

    /// The state after the loop that pings has seen an event.
    pub open spec fn pinged(self, event: PingerEvent) -> SupervisorView {
        let after = match event {
            PingerEvent::Resolved(answers) => SupervisorView {
                ips: gathered(self.ping.domains.mode, answers@),
                ..self
            },
            _ => self,
        };
        if self.pinger_request(event) == PingerRequest::Close {
            SupervisorView { loops: Loops { pinger: LoopState::Stopped, ..self.loops }, ..after }
        } else {
            after
        }
    }

    /// What the loop that waits for a network is to do after an event.
    pub open spec fn waiter_request(self, event: WaiterEvent) -> WaiterRequest {
        match event {
            WaiterEvent::Tick => match self.interface {
                Some(guid) => WaiterRequest::Scan { on: guid },
                None => WaiterRequest::Close,
            },
            WaiterEvent::Scanned => if self.available() {
                WaiterRequest::Choose
            } else {
                WaiterRequest::Wait { after_ms: WAITER_PAUSE_MS }
            },
            WaiterEvent::Chosen { joined } => if joined {
                WaiterRequest::Close
            } else {
                WaiterRequest::Wait { after_ms: WAITER_PAUSE_MS }
            },
        }
    }

    /// The state after the loop that waits for a network has seen an event.
    pub open spec fn waited(self, event: WaiterEvent) -> SupervisorView {
        if self.waiter_request(event) == WaiterRequest::Close {
            SupervisorView { loops: Loops { waiter: LoopState::Stopped, ..self.loops }, ..self }
        } else {
            self
        }
    }

    /// The state after the first enumeration of the adapters.
    pub open spec fn booted(self, enumeration: NativeResult<Vec<Interface>>) -> SupervisorView {
        let listed = match enumeration {
            Ok(list) => SupervisorView { interfaces: list@, ..self },
            Err(_) => self,
        };
        let running = Loops {
            demux: LoopState::Running,
            interface_autopilot: LoopState::Running,
            network_autopilot: LoopState::Running,
            ..self.loops
        };
        let chosen = match listed.preferred() {
            Some(adapter) => listed.using(adapter),
            None => listed,
        };
        SupervisorView {
            state: if chosen.interface is None {
                listed.died(DeadReason::NoInterface)
            } else {
                listed.state
            },
            loops: running,
            ..chosen
        }
    }

    /// What the first enumeration of the adapters asks for.
    pub open spec fn boot_actions(self, enumeration: NativeResult<Vec<Interface>>) -> Seq<Action> {
        let after = self.booted(enumeration);
        when(!self.loops.running(Loop::Demux), Action::Spawn(Loop::Demux)) + when(
            !self.loops.running(Loop::InterfaceAutopilot),
            Action::Spawn(Loop::InterfaceAutopilot),
        ) + when(
            !self.loops.running(Loop::NetworkAutopilot),
            Action::Spawn(Loop::NetworkAutopilot),
        ) + match after.interface {
            Some(guid) => seq![Action::Scan(guid), Action::ListNetworks(guid)],
            None => when(may_die(self.state), Action::Report(DeadReason::NoInterface)),
        }
    }

    /// No configured network is in range of an adapter in use, and the host may go dead.
    pub open spec fn stranded(self) -> bool {
        self.interface is Some && !self.available() && may_die(self.state)
    }

    /// The state after the first report of the networks in range.
    pub open spec fn booted_networks(self, report: NativeResult<Vec<Network>>) -> SupervisorView {
        let fresh = self.listed(report);
        if fresh.stranded() {
            SupervisorView {
                state: State::Dead(DeadReason::NoNetwork),
                loops: Loops { waiter: LoopState::Running, ..self.loops },
                ..fresh
            }
        } else {
            fresh
        }
    }

    /// What the first report of the networks in range asks for.
    pub open spec fn boot_network_actions(self, report: NativeResult<Vec<Network>>) -> Seq<Action> {
        let fresh = self.listed(report);
        if fresh.stranded() {
            seq![Action::Report(DeadReason::NoNetwork)] + when(
                !self.loops.running(Loop::Waiter),
                Action::Spawn(Loop::Waiter),
            )
        } else {
            Seq::empty()
        }
    }
}

} // verus!
