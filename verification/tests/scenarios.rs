use wifu::cfg::{Config, Domains, DomainsMode, Interfaces, Ping, WiFi, WiFiNetwork, WiFiPriority, WiFiScan};
use wifu::pinger::{Ip, SocketAddress, Step};
use wifu::state::{DeadReason, State};
use wifu::supervisor::{Action, PingerEvent, PingerRequest, Supervisor, WaiterEvent, WaiterRequest};
use wifu::win::guid::{to_string, Guid};
use wifu::win::wlan::acm::notification::Code;
use wifu::win::wlan::acm::Notification;
use wifu::win::wlan::interface::State as AdapterState;
use wifu::win::wlan::network::profile::raw::KeyType;
use wifu::win::wlan::network::{Authentication, Bss, Encryption, Profile, Security};
use wifu::win::wlan::{Interface, Network};
use wifu::win::NativeError;
use wifu::wlan::acm::NotificationWithInterface;
use wifu::wlan::event::Loop;

const A: Guid = Guid { value: 0xA };
const B: Guid = Guid { value: 0xB };

fn adapter(guid: Guid) -> Interface {
    Interface { guid, description: format!("adapter {}", guid.value), state: AdapterState::Connected }
}

fn live(ssid: &str) -> Network {
    Network {
        profile: None,
        ssid: ssid.to_string(),
        bss: Bss::Infrastructure,
        bssids: 1,
        connectable: true,
        unconnectable_reason: None,
        phys: vec![],
        signal_quality: 70,
        security: Security { enabled: true, auth: Authentication::RsnaPsk, cipher: Encryption::Ccmp },
    }
}

fn config(priority: &[Guid], networks: &[(&str, Option<&str>)]) -> Config {
    Config {
        ping: Ping {
            domains: Domains { list: vec!["example.org".to_string()], mode: DomainsMode::FirstIpFromEach },
            timeout_ms: 100,
            interval_ms: 1000,
            max_errors: 3,
        },
        interfaces: Interfaces { priority: priority.iter().map(to_string).collect() },
        wifi: WiFi {
            networks: networks
                .iter()
                .map(|(ssid, password)| WiFiNetwork {
                    ssid: ssid.to_string(),
                    password: password.map(|p| p.to_string()),
                })
                .collect(),
            priority: WiFiPriority::List,
            scan: WiFiScan { interval_ms: 30000 },
        },
    }
}

fn address() -> SocketAddress {
    SocketAddress { ip: Ip::V4(0x0808_0808), port: 80 }
}

fn refreshed(guid: Guid) -> NotificationWithInterface {
    NotificationWithInterface { code: Code::ScanListRefresh, interface: adapter(guid) }
}

/// A stand-in for the wireless service: it stores profiles, counts the calls, and
/// answers the attempts to connect from a script.
struct Service {
    stored: Vec<Profile>,
    installs: usize,
    connects: Vec<String>,
    answers: Vec<Result<bool, NativeError>>,
}

impl Service {
    fn new(answers: &[Result<bool, NativeError>]) -> Service {
        Service { stored: vec![], installs: 0, connects: vec![], answers: answers.to_vec() }
    }

    /// Runs a round of choosing as the program around the library does.
    fn round(&mut self, supervisor: &mut Supervisor) -> bool {
        loop {
            let Some(attempt) = supervisor.attempt_network() else {
                return false;
            };
            let exists = self.stored.iter().any(|p| p.name == attempt.ssid);
            if let Some(profile) = attempt.install(exists) {
                self.installs += 1;
                self.stored.push(profile.clone());
            }
            self.connects.push(attempt.ssid.clone());
            let answer = self.answers.remove(0);
            if supervisor.conclude_network(answer) {
                return true;
            }
        }
    }
}

/// Brings a supervisor to life on adapter A and the first configured network in range.
fn alive_on(config: Config, adapters: Vec<Interface>, networks: &[&str], service: &mut Service) -> Supervisor {
    let mut supervisor = Supervisor::new(config, &[Some(vec![address()])]);
    supervisor.bootstrap(Ok(adapters));
    let report: Vec<Network> = networks.iter().map(|s| live(s)).collect();
    assert!(supervisor.bootstrap_networks(Ok(report)).is_empty());
    let chosen = *supervisor.interface().get().unwrap();
    assert_eq!(supervisor.network_autopilot_wants(&refreshed(chosen)), Some(chosen));
    let again: Vec<Network> = networks.iter().map(|s| live(s)).collect();
    assert_eq!(supervisor.network_autopilot(Ok(again)), vec![Action::Choose { revive: true }]);
    assert!(service.round(&mut supervisor));
    assert_eq!(supervisor.network_chosen(true, true), vec![Action::Spawn(Loop::Pinger)]);
    assert!(supervisor.is_alive());
    supervisor
}

#[test]
fn cold_start_without_adapters_then_an_arrival() {
    let mut supervisor = Supervisor::new(config(&[], &[("X", None)]), &[]);
    assert_eq!(*supervisor.state().get(), State::Dead(DeadReason::Uninitialized));
    let actions = supervisor.bootstrap(Ok(vec![]));
    assert_eq!(
        actions,
        vec![
            Action::Spawn(Loop::Demux),
            Action::Spawn(Loop::InterfaceAutopilot),
            Action::Spawn(Loop::NetworkAutopilot),
            Action::Report(DeadReason::NoInterface),
        ]
    );
    assert_eq!(*supervisor.state().get(), State::Dead(DeadReason::NoInterface));
    assert!(!supervisor.interface().is_chosen());

    let arrival = Notification { code: Code::InterfaceArrival, guid: A };
    assert!(supervisor.demux_needs_enumeration(&arrival));
    let event = supervisor.demux(arrival, Some(Ok(vec![adapter(A)]))).unwrap();
    assert_eq!(event, NotificationWithInterface { code: Code::InterfaceArrival, interface: adapter(A) });
    assert_eq!(supervisor.interfaces().as_slice(), &[adapter(A)]);

    let actions = supervisor.interface_autopilot(&event);
    assert_eq!(supervisor.interface().get(), Some(&A));
    assert!(supervisor.is_alive());
    assert_eq!(
        actions,
        vec![
            Action::Abort(Loop::NetworkAutopilot),
            Action::Spawn(Loop::NetworkAutopilot),
            Action::Scan(A),
            Action::ListNetworks(A),
        ]
    );
}

#[test]
fn priority_rotation_on_removal() {
    let mut service = Service::new(&[Ok(true)]);
    let mut supervisor =
        alive_on(config(&[A, B], &[("X", None)]), vec![adapter(A), adapter(B)], &["X"], &mut service);
    assert_eq!(supervisor.interface().get(), Some(&A));

    let removal = Notification { code: Code::InterfaceRemoval, guid: A };
    assert!(supervisor.demux_needs_enumeration(&removal));
    let event = supervisor.demux(removal, Some(Ok(vec![adapter(B)]))).unwrap();
    assert_eq!(event.interface, adapter(A));
    assert_eq!(supervisor.interfaces().as_slice(), &[adapter(B)]);

    let actions = supervisor.interface_autopilot(&event);
    assert_eq!(supervisor.interface().get(), Some(&B));
    assert!(supervisor.is_alive());
    assert!(supervisor.networks().is_empty());
    assert!(!supervisor.network().is_chosen());
    assert_eq!(
        actions,
        vec![
            Action::Abort(Loop::NetworkAutopilot),
            Action::Abort(Loop::Pinger),
            Action::Spawn(Loop::NetworkAutopilot),
            Action::Scan(B),
            Action::ListNetworks(B),
        ]
    );
    assert!(supervisor.loops().works(Loop::NetworkAutopilot));
    assert!(!supervisor.loops().works(Loop::Pinger));
}

#[test]
fn ssid_switch_on_ping_failure() {
    let mut service = Service::new(&[Ok(true), Ok(true)]);
    let mut supervisor =
        alive_on(config(&[], &[("X", None), ("Y", None)]), vec![adapter(A)], &["X", "Y"], &mut service);
    assert_eq!(supervisor.network().get(), Some("X"));

    assert_eq!(supervisor.pinger_loop(PingerEvent::Started), PingerRequest::Monitor);
    let mut monitor = supervisor.pinger().start().unwrap();
    assert_eq!(monitor.record(false), Step::Ping { address: address(), after_ms: 0 });
    assert_eq!(monitor.record(false), Step::Ping { address: address(), after_ms: 0 });
    assert_eq!(monitor.record(false), Step::Stop);

    assert_eq!(
        supervisor.pinger_loop(PingerEvent::Monitored),
        PingerRequest::Scan { on: A, refresh: false }
    );
    assert_eq!(
        supervisor.pinger_loop(PingerEvent::Scanned { refresh: false }),
        PingerRequest::Choose { refresh: false }
    );
    assert!(service.round(&mut supervisor));
    assert_eq!(supervisor.network().get(), Some("Y"));
    assert_eq!(service.connects, vec!["X", "Y"]);
    assert_eq!(
        supervisor.pinger_loop(PingerEvent::Chosen { joined: true, refresh: false }),
        PingerRequest::Monitor
    );
    assert!(supervisor.loops().works(Loop::Pinger));
    assert!(supervisor.is_alive());
}

#[test]
fn no_whitelisted_ssid_available() {
    let mut supervisor = Supervisor::new(config(&[], &[("X", None)]), &[Some(vec![address()])]);
    supervisor.bootstrap(Ok(vec![adapter(A)]));
    let actions = supervisor.bootstrap_networks(Ok(vec![live("Z")]));
    assert_eq!(actions, vec![Action::Report(DeadReason::NoNetwork), Action::Spawn(Loop::Waiter)]);
    assert_eq!(*supervisor.state().get(), State::Dead(DeadReason::NoNetwork));
    assert!(supervisor.loops().works(Loop::Waiter));

    assert_eq!(supervisor.waiter_loop(WaiterEvent::Tick), WaiterRequest::Scan { on: A });
    assert_eq!(supervisor.waiter_loop(WaiterEvent::Scanned), WaiterRequest::Wait { after_ms: 1000 });

    assert_eq!(supervisor.network_autopilot_wants(&refreshed(A)), Some(A));
    let actions = supervisor.network_autopilot(Ok(vec![live("Z"), live("X")]));
    assert_eq!(actions, vec![Action::Abort(Loop::Waiter), Action::Choose { revive: true }]);
    assert!(!supervisor.loops().works(Loop::Waiter));
    let mut service = Service::new(&[Ok(true)]);
    assert!(service.round(&mut supervisor));
    assert_eq!(supervisor.network_chosen(true, true), vec![Action::Spawn(Loop::Pinger)]);
    assert_eq!(supervisor.network().get(), Some("X"));
    assert!(supervisor.is_alive());
    assert!(supervisor.loops().works(Loop::Pinger));
}

#[test]
fn the_autopilot_declares_the_host_dead_for_want_of_a_network() {
    let mut supervisor = Supervisor::new(config(&[], &[("X", None)]), &[]);
    supervisor.bootstrap(Ok(vec![adapter(A)]));
    let actions = supervisor.network_autopilot(Ok(vec![live("Z")]));
    assert_eq!(actions, vec![Action::Report(DeadReason::NoNetwork), Action::Spawn(Loop::Waiter)]);
    assert_eq!(*supervisor.state().get(), State::Dead(DeadReason::NoNetwork));
    assert!(supervisor.network_autopilot(Ok(vec![live("Z")])).is_empty());
    assert_eq!(*supervisor.state().get(), State::Dead(DeadReason::NoNetwork));
}

#[test]
fn profile_provisioning() {
    let mut supervisor = Supervisor::new(config(&[], &[("X", Some("p"))]), &[]);
    supervisor.bootstrap(Ok(vec![adapter(A)]));
    supervisor.bootstrap_networks(Ok(vec![live("X")]));
    let mut service = Service::new(&[Ok(true)]);
    assert!(service.round(&mut supervisor));
    assert_eq!(service.installs, 1);
    assert_eq!(service.stored.len(), 1);
    let key = service.stored[0].security.key.as_ref().unwrap();
    assert_eq!(key.content, "p");
    assert_eq!(key.kind, KeyType::PassPhrase);
    assert!(!key.is_encrypted);
    assert_eq!(service.stored[0].name, "X");
    assert_eq!(service.connects, vec!["X"]);
}

#[test]
fn a_stored_profile_is_not_installed_again() {
    let mut supervisor = Supervisor::new(config(&[], &[("X", Some("p"))]), &[]);
    supervisor.bootstrap(Ok(vec![adapter(A)]));
    supervisor.bootstrap_networks(Ok(vec![live("X")]));
    let mut service = Service::new(&[Ok(false), Ok(true)]);
    assert!(service.round(&mut supervisor));
    assert_eq!(service.installs, 1);
    assert_eq!(service.connects, vec!["X", "X"]);
    let attempt = supervisor.attempt_network().unwrap();
    assert!(attempt.install(true).is_none());
    assert_eq!(attempt.install(false), attempt.profile.as_ref());
}

#[test]
fn connect_fails_once_then_succeeds() {
    let mut supervisor =
        Supervisor::new(config(&[], &[("X", None), ("Y", None)]), &[Some(vec![address()])]);
    supervisor.bootstrap(Ok(vec![adapter(A)]));
    supervisor.bootstrap_networks(Ok(vec![live("X"), live("Y")]));
    let actions = supervisor.network_autopilot(Ok(vec![live("X"), live("Y")]));
    assert_eq!(actions, vec![Action::Choose { revive: true }]);
    let mut service = Service::new(&[Ok(false), Ok(true)]);
    let mut entered = 0;
    let before = supervisor.is_alive();
    assert!(service.round(&mut supervisor));
    assert_eq!(service.connects, vec!["X", "Y"]);
    assert_eq!(supervisor.network().get(), Some("Y"));
    assert!(!supervisor.network().is_choosing());
    supervisor.network_chosen(true, true);
    if !before && supervisor.is_alive() {
        entered += 1;
    }
    assert!(supervisor.network_autopilot(Ok(vec![live("X"), live("Y")])).is_empty());
    assert_eq!(entered, 1);
    assert!(supervisor.is_alive());
}

#[test]
fn the_last_adapter_leaves() {
    let mut service = Service::new(&[Ok(true)]);
    let mut supervisor = alive_on(config(&[], &[("X", None)]), vec![adapter(A)], &["X"], &mut service);
    let removal = Notification { code: Code::InterfaceRemoval, guid: A };
    let event = supervisor.demux(removal, Some(Ok(vec![]))).unwrap();
    let actions = supervisor.interface_autopilot(&event);
    assert_eq!(
        actions,
        vec![
            Action::Abort(Loop::NetworkAutopilot),
            Action::Abort(Loop::Pinger),
            Action::Report(DeadReason::NoInterface),
        ]
    );
    assert_eq!(*supervisor.state().get(), State::Dead(DeadReason::NoInterface));
    assert!(!supervisor.interface().is_chosen());
    assert!(!supervisor.network().is_chosen());
    assert!(supervisor.networks().is_empty());
    assert_eq!(supervisor.attempt_network(), None);
}

#[test]
fn an_arrival_disconnects_every_other_adapter() {
    let mut supervisor = Supervisor::new(config(&[B], &[("X", None)]), &[]);
    supervisor.bootstrap(Ok(vec![adapter(A)]));
    assert_eq!(supervisor.interface().get(), Some(&A));
    let arrival = Notification { code: Code::InterfaceArrival, guid: B };
    let event = supervisor.demux(arrival, Some(Ok(vec![adapter(A), adapter(B)]))).unwrap();
    let actions = supervisor.interface_autopilot(&event);
    assert_eq!(supervisor.interface().get(), Some(&B));
    assert_eq!(actions[0], Action::Disconnect(A));
    assert_eq!(&actions[1..], &[
        Action::Abort(Loop::NetworkAutopilot),
        Action::Spawn(Loop::NetworkAutopilot),
        Action::Scan(B),
        Action::ListNetworks(B),
    ]);
    assert!(supervisor.is_alive());
}

#[test]
fn an_arrival_of_a_less_preferred_adapter_changes_nothing() {
    let mut supervisor = Supervisor::new(config(&[A], &[("X", None)]), &[]);
    supervisor.bootstrap(Ok(vec![adapter(A)]));
    let arrival = Notification { code: Code::InterfaceArrival, guid: B };
    let event = supervisor.demux(arrival, Some(Ok(vec![adapter(A), adapter(B)]))).unwrap();
    assert!(supervisor.interface_autopilot(&event).is_empty());
    assert_eq!(supervisor.interface().get(), Some(&A));
    assert_eq!(*supervisor.state().get(), State::Dead(DeadReason::Uninitialized));
}

#[test]
fn the_demultiplexer_drops_what_it_cannot_place() {
    let mut supervisor = Supervisor::new(config(&[], &[("X", None)]), &[]);
    supervisor.bootstrap(Ok(vec![adapter(A)]));
    let unknown = Notification { code: Code::ScanComplete, guid: B };
    assert!(!supervisor.demux_needs_enumeration(&unknown));
    assert_eq!(supervisor.demux(unknown, None), None);
    let other = Notification { code: Code::ProfileChange, guid: A };
    assert_eq!(supervisor.demux(other, None), None);
    let gone = Notification { code: Code::InterfaceRemoval, guid: B };
    assert!(!supervisor.demux_needs_enumeration(&gone));
    assert_eq!(supervisor.demux(gone, Some(Ok(vec![]))), None);
    assert_eq!(supervisor.interfaces().as_slice(), &[adapter(A)]);
    let known = Notification { code: Code::ConnectionComplete, guid: A };
    assert_eq!(
        supervisor.demux(known, None),
        Some(NotificationWithInterface { code: Code::ConnectionComplete, interface: adapter(A) })
    );
}

#[test]
fn a_failed_enumeration_publishes_nothing() {
    let mut supervisor = Supervisor::new(config(&[], &[("X", None)]), &[]);
    supervisor.bootstrap(Ok(vec![adapter(A)]));
    let arrival = Notification { code: Code::InterfaceArrival, guid: B };
    assert_eq!(supervisor.demux(arrival, Some(Err(NativeError::AccessDenied))), None);
    assert_eq!(supervisor.demux(arrival, None), None);
    let removal = Notification { code: Code::InterfaceRemoval, guid: A };
    assert_eq!(supervisor.demux(removal, Some(Err(NativeError::NotEnoughMemory))), None);
    assert_eq!(supervisor.interfaces().as_slice(), &[adapter(A)]);
}

#[test]
fn the_autopilot_for_networks_listens_to_the_adapter_in_use_only() {
    let mut supervisor = Supervisor::new(config(&[], &[("X", None)]), &[]);
    supervisor.bootstrap(Ok(vec![adapter(A), adapter(B)]));
    assert!(supervisor.is_relevant(&A));
    assert!(!supervisor.is_relevant(&B));
    assert_eq!(supervisor.network_autopilot_wants(&refreshed(A)), Some(A));
    assert_eq!(supervisor.network_autopilot_wants(&refreshed(B)), None);
    let other = NotificationWithInterface { code: Code::ScanComplete, interface: adapter(A) };
    assert_eq!(supervisor.network_autopilot_wants(&other), None);
}

#[test]
fn a_report_without_an_adapter_in_use_is_refused() {
    let mut supervisor = Supervisor::new(config(&[], &[("X", None)]), &[]);
    supervisor.bootstrap(Ok(vec![]));
    assert!(supervisor.networks_listed(Ok(vec![live("X")])).is_err());
    assert!(supervisor.network_autopilot(Ok(vec![live("X")])).is_empty());
    assert!(supervisor.networks().is_empty());
    assert!(supervisor.network_chosen(true, true).is_empty());
    assert!(!supervisor.is_alive());
}

#[test]
fn the_loop_that_pings_refreshes_its_addresses_when_it_has_none() {
    let mut service = Service::new(&[Ok(true), Ok(true), Ok(true)]);
    let mut supervisor = Supervisor::new(config(&[], &[("X", None)]), &[None]);
    supervisor.bootstrap(Ok(vec![adapter(A)]));
    supervisor.bootstrap_networks(Ok(vec![live("X")]));
    assert_eq!(supervisor.pinger_loop(PingerEvent::Started), PingerRequest::Scan { on: A, refresh: true });
    assert_eq!(
        supervisor.pinger_loop(PingerEvent::Scanned { refresh: true }),
        PingerRequest::Choose { refresh: true }
    );
    assert!(service.round(&mut supervisor));
    assert_eq!(
        supervisor.pinger_loop(PingerEvent::Chosen { joined: true, refresh: true }),
        PingerRequest::Resolve
    );
    assert_eq!(
        supervisor.pinger_loop(PingerEvent::Resolved(vec![None])),
        PingerRequest::Scan { on: A, refresh: false }
    );
    assert_eq!(
        supervisor.pinger_loop(PingerEvent::Resolved(vec![Some(vec![address()])])),
        PingerRequest::Monitor
    );
    assert_eq!(supervisor.pinger().ips, vec![address()]);
}

#[test]
fn the_loop_that_pings_ends_when_no_network_can_be_joined() {
    let mut supervisor = Supervisor::new(config(&[], &[("X", None)]), &[Some(vec![address()])]);
    supervisor.bootstrap(Ok(vec![adapter(A)]));
    supervisor.network_chosen(false, false);
    let mut service = Service::new(&[Ok(true)]);
    supervisor.bootstrap_networks(Ok(vec![live("X")]));
    assert!(service.round(&mut supervisor));
    assert_eq!(supervisor.network_chosen(false, true), vec![Action::Spawn(Loop::Pinger)]);
    assert!(supervisor.loops().works(Loop::Pinger));
    assert_eq!(
        supervisor.pinger_loop(PingerEvent::Chosen { joined: false, refresh: false }),
        PingerRequest::Close
    );
    assert!(!supervisor.loops().works(Loop::Pinger));
}

#[test]
fn the_loop_that_waits_ends_when_a_network_is_joined() {
    let mut supervisor = Supervisor::new(config(&[], &[("X", None)]), &[]);
    supervisor.bootstrap(Ok(vec![adapter(A)]));
    supervisor.bootstrap_networks(Ok(vec![]));
    assert!(supervisor.loops().works(Loop::Waiter));
    supervisor.networks_listed(Ok(vec![live("X")])).unwrap();
    assert_eq!(supervisor.waiter_loop(WaiterEvent::Scanned), WaiterRequest::Choose);
    assert_eq!(
        supervisor.waiter_loop(WaiterEvent::Chosen { joined: false }),
        WaiterRequest::Wait { after_ms: 1000 }
    );
    assert!(supervisor.loops().works(Loop::Waiter));
    assert_eq!(supervisor.waiter_loop(WaiterEvent::Chosen { joined: true }), WaiterRequest::Close);
    assert!(!supervisor.loops().works(Loop::Waiter));
}

#[test]
fn networks_begin_anew() {
    let mut service = Service::new(&[Ok(true)]);
    let mut supervisor = alive_on(config(&[], &[("X", None)]), vec![adapter(A)], &["X"], &mut service);
    assert_eq!(
        supervisor.network_restart(),
        vec![
            Action::Abort(Loop::NetworkAutopilot),
            Action::Abort(Loop::Pinger),
            Action::Spawn(Loop::NetworkAutopilot),
            Action::Scan(A),
            Action::ListNetworks(A),
        ]
    );
    assert!(!supervisor.network().is_chosen());
    assert!(supervisor.networks().is_empty());
    assert!(supervisor.network_end().len() == 1);
    assert_eq!(
        supervisor.network_start(),
        vec![Action::Spawn(Loop::NetworkAutopilot), Action::Scan(A), Action::ListNetworks(A)]
    );
    assert_eq!(supervisor.network_start(), vec![Action::Scan(A), Action::ListNetworks(A)]);
}
