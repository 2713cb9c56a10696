//! The supervisor: every operator in one value, driven by events.

pub mod action;
pub mod laws;
pub mod model;

pub use action::{Action, PingerEvent, PingerRequest, WaiterEvent, WaiterRequest};
pub use model::SupervisorView;

use crate::cfg::{Config, Interfaces, WiFi};
use crate::pinger::{gathered, Pinger, SocketAddress};
use crate::state;
use crate::state::{DeadReason, State};
use crate::util::priority::texts;
use crate::win::wlan::{Interface, Network};
use crate::win::NativeResult;
use crate::wlan::event::{Loop, Loops};
use crate::wlan::interface;
use crate::wlan::network;
use crate::wlan::network::chosen::Attempt;
use crate::util::search::first;
use crate::wlan::network::chosen::password_text;
use crate::wlan::network::list::{has_ssid, named};
use vstd::prelude::*;

verus! {

/// The supervisor. It owns the operators and the configuration; the program
/// around it reports what happens and does what the supervisor asks for.
#[derive(Debug, PartialEq, Eq)]
pub struct Supervisor {
    pub(crate) interfaces_config: Interfaces,
    pub(crate) wifi_config: WiFi,
    pub(crate) state: state::Operator,
    pub(crate) interfaces: interface::list::Operator,
    pub(crate) interface: interface::chosen::Operator,
    pub(crate) networks: network::list::Operator,
    pub(crate) network: network::chosen::Operator,
    pub(crate) pinger: Pinger,
    pub(crate) loops: Loops,
}

impl View for Supervisor {
    type V = SupervisorView;

    open(crate) spec fn view(&self) -> SupervisorView {
        SupervisorView {
            priority: texts(self.interfaces_config.priority@),
            configured: self.wifi_config.networks@,
            ping: self.pinger.config,
            state: self.state@,
            interfaces: self.interfaces@,
            interface: self.interface@,
            interface_name: self.interface.described(),
            networks: self.networks@,
            network: self.network@,
            choosing: self.network.choosing(),
            ips: self.pinger.ips@,
            loops: self.loops,
        }
    }
}

impl Supervisor {
    /// A supervisor for `config` that has seen nothing yet: the host is dead
    /// as not yet started, no adapter and no network is known or chosen, and
    /// no loop runs. The addresses to ping are picked from what the resolver
    /// answered for each configured host name in order.
    pub fn new(config: Config, resolved: &[Option<Vec<SocketAddress>>]) -> (supervisor: Supervisor)
        ensures
            supervisor@ == (SupervisorView {
                priority: texts(config.interfaces.priority@),
                configured: config.wifi.networks@,
                ping: config.ping,
                state: State::Dead(DeadReason::Uninitialized),
                interfaces: Seq::empty(),
                interface: None,
                interface_name: None,
                networks: Seq::empty(),
                network: None,
                choosing: false,
                ips: gathered(config.ping.domains.mode, resolved@),
                loops: Loops::none(),
            }),
    {
        let supervisor = Supervisor {
            interfaces_config: config.interfaces,
            wifi_config: config.wifi,
            state: state::Operator::default(),
            interfaces: interface::list::Operator::default(),
            interface: interface::chosen::Operator::default(),
            networks: network::list::Operator::default(),
            network: network::chosen::Operator::default(),
            pinger: Pinger::from_config(config.ping, resolved),
            loops: Loops::default(),
        };
        assert(supervisor@.interfaces =~= Seq::empty());
        assert(supervisor@.networks =~= Seq::empty());
        supervisor
    }

    /// Tells whether the host is alive.
    pub fn is_alive(&self) -> (yes: bool)
        ensures
            yes == (self@.state == State::Alive),
    {
        self.state.is_alive()
    }

    /// The holder of the host's liveness.
    pub fn state(&self) -> (operator: &state::Operator)
        ensures
            operator@ == self@.state,
    {
        &self.state
    }

    /// The adapters present.
    pub fn interfaces(&self) -> (operator: &interface::list::Operator)
        ensures
            operator@ == self@.interfaces,
    {
        &self.interfaces
    }

    /// The adapter in use.
    pub fn interface(&self) -> (operator: &interface::chosen::Operator)
        ensures
            operator@ == self@.interface,
            operator.described() == self@.interface_name,
    {
        &self.interface
    }

    /// The networks in range of the adapter in use.
    pub fn networks(&self) -> (operator: &network::list::Operator)
        ensures
            operator@ == self@.networks,
    {
        &self.networks
    }

    /// The network joined or being joined.
    pub fn network(&self) -> (operator: &network::chosen::Operator)
        ensures
            operator@ == self@.network,
            operator.choosing() == self@.choosing,
    {
        &self.network
    }

    /// The probe.
    pub fn pinger(&self) -> (pinger: &Pinger)
        ensures
            pinger.ips@ == self@.ips,
            pinger.config == self@.ping,
    {
        &self.pinger
    }

    /// Which loops run.
    pub fn loops(&self) -> (loops: &Loops)
        ensures
            *loops == self@.loops,
    {
        &self.loops
    }

    /// Starts the supervisor with the first enumeration of the adapters.
    ///
    /// The enumeration is taken over unless it failed. The demultiplexer and
    /// both autopilots are to be started unless they run. The most preferred
    /// adapter is taken into use. With an adapter in use, it is to scan and
    /// to list the networks in range, and the report is to be handed to
    /// `bootstrap_networks`. With none, the host goes dead for want of an
    /// adapter.
    pub fn bootstrap(&mut self, enumeration: NativeResult<Vec<Interface>>) -> (actions: Vec<Action>)
        ensures
            final(self)@ == old(self)@.booted(enumeration),
            actions@ == old(self)@.boot_actions(enumeration),
    {
        let mut actions: Vec<Action> = Vec::new();
        if !self.loops.works(Loop::Demux) {
            self.loops.spawn(Loop::Demux);
            actions.push(Action::Spawn(Loop::Demux));
        }
        if !self.loops.works(Loop::InterfaceAutopilot) {
            self.loops.spawn(Loop::InterfaceAutopilot);
            actions.push(Action::Spawn(Loop::InterfaceAutopilot));
        }
        if !self.loops.works(Loop::NetworkAutopilot) {
            self.loops.spawn(Loop::NetworkAutopilot);
            actions.push(Action::Spawn(Loop::NetworkAutopilot));
        }
        let _taken = self.interfaces.update_warned(enumeration);
        let _picked = self.interface.select(
            &self.interfaces,
            self.interfaces_config.priority.as_slice(),
        );
        match self.interface.get() {
            Some(guid) => {
                actions.push(Action::Scan(*guid));
                actions.push(Action::ListNetworks(*guid));
            },
            None => {
                if self.state.dead(DeadReason::NoInterface).is_ok() {
                    actions.push(Action::Report(DeadReason::NoInterface));
                }
            },
        }
        assert(actions@ =~= old(self)@.boot_actions(enumeration));
        actions
    }

    /// Goes on starting with the first report of the networks in range.
    ///
    /// The report is taken over unless it failed. If then no configured
    /// network is in range of an adapter in use, and the host may go dead, it
    /// goes dead for want of a network, and the loop that waits is to be
    /// started unless it runs. Otherwise nothing more is done here: the
    /// autopilots bring the host to life.
    pub fn bootstrap_networks(&mut self, report: NativeResult<Vec<Network>>) -> (actions: Vec<
        Action,
    >)
        ensures
            final(self)@ == old(self)@.booted_networks(report),
            actions@ == old(self)@.boot_network_actions(report),
    {
        let mut actions: Vec<Action> = Vec::new();
        let _taken = self.networks.update(&self.interface, report);
        let available = self.networks.cfg_networks_available(self.wifi_config.networks.as_slice());
        if self.interface.is_chosen() && !available && self.state.can_die() {
            let _shown = self.state.dead(DeadReason::NoNetwork);
            actions.push(Action::Report(DeadReason::NoNetwork));
            if !self.loops.works(Loop::Waiter) {
                self.loops.spawn(Loop::Waiter);
                actions.push(Action::Spawn(Loop::Waiter));
            }
        }
        assert(actions@ =~= old(self)@.boot_network_actions(report));
        actions
    }

    /// Begins an attempt to join the next network, as a step of a round of choosing.
    ///
    /// With an adapter in use, the network that follows the current one among
    /// the configured networks in range becomes the chosen one, and the
    /// attempt to join it is handed back: where the adapter stores no profile
    /// of that name, the attempt's profile is to be installed; then the
    /// adapter is to connect, and the outcome is to be handed to
    /// `conclude_network`. With no configured network in range, or no adapter
    /// in use, there is nothing to attempt: the round has joined no network.
    pub fn attempt_network(&mut self) -> (attempt: Option<Attempt>)
        ensures
            final(self)@ == old(self)@.attempting(),
            attempt is Some <==> old(self)@.interface is Some && old(self)@.available(),
            attempt matches Some(a) ==> {
                let ssid = final(self)@.network->0;
                a.plans(
                    old(self)@.networks[first(old(self)@.networks, has_ssid(ssid))->0]@,
                    password_text(
                        old(self)@.configured[first(old(self)@.configured, named(ssid))->0],
                    ),
                )
            },
    {
        if !self.interface.is_chosen() {
            return None;
        }
        self.network.select(&self.networks, self.wifi_config.networks.as_slice())
    }

    /// Ends an attempt to join a network with what connecting gave, and tells
    /// whether the network is joined. If it is, the round of choosing is
    /// over; if not, the next attempt is to be begun.
    pub fn conclude_network(&mut self, outcome: NativeResult<bool>) -> (joined: bool)
        ensures
            final(self)@ == old(self)@.attempted(outcome),
            joined == (outcome matches Ok(made) && made),
    {
        self.network.conclude(outcome)
    }
}

} // verus!
