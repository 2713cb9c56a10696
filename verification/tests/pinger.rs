use wifu::cfg::{Domains, DomainsMode, Ping};
use wifu::pinger::{Ip, Pinger, SocketAddress, Step};
use wifu::util::domain::http_to_ips;

fn address(last: u32) -> SocketAddress {
    SocketAddress { ip: Ip::V4(0x0A00_0000 + last), port: 80 }
}

fn ping(mode: DomainsMode, max_errors: u32) -> Ping {
    Ping {
        domains: Domains { list: vec!["a.example".to_string(), "b.example".to_string()], mode },
        timeout_ms: 100,
        interval_ms: 1000,
        max_errors,
    }
}

fn pinger(ips: &[SocketAddress], max_errors: u32) -> Pinger {
    Pinger::from_config(ping(DomainsMode::AllIpsFromEach, max_errors), &[Some(ips.to_vec())])
}

#[test]
fn the_resolver_is_asked_for_the_web_port() {
    assert_eq!(http_to_ips("google.com"), "google.com:80");
    assert_eq!(http_to_ips(""), ":80");
}

#[test]
fn the_first_address_of_each_name_is_gathered() {
    let resolved = vec![
        Some(vec![address(1), address(2)]),
        None,
        Some(vec![]),
        Some(vec![address(3)]),
    ];
    assert_eq!(
        Pinger::gather_ips(DomainsMode::FirstIpFromEach, &resolved),
        vec![address(1), address(3)]
    );
}

#[test]
fn all_addresses_of_each_name_are_gathered() {
    let resolved = vec![
        Some(vec![address(1), address(2)]),
        None,
        Some(vec![]),
        Some(vec![address(3)]),
    ];
    assert_eq!(
        Pinger::gather_ips(DomainsMode::AllIpsFromEach, &resolved),
        vec![address(1), address(2), address(3)]
    );
}

#[test]
fn nothing_is_gathered_from_names_that_fail() {
    assert!(Pinger::gather_ips(DomainsMode::AllIpsFromEach, &[None, None]).is_empty());
    assert!(Pinger::gather_ips(DomainsMode::FirstIpFromEach, &[]).is_empty());
}

#[test]
fn a_probe_keeps_its_configuration_and_gathers_its_addresses() {
    let config = ping(DomainsMode::FirstIpFromEach, 3);
    let probe = Pinger::from_config(config.clone(), &[Some(vec![address(1), address(2)]), None]);
    assert_eq!(probe.config, config);
    assert_eq!(probe.ips, vec![address(1)]);
    assert!(!probe.has_no_ips());
}

#[test]
fn the_addresses_are_refreshed_on_demand() {
    let mut probe = Pinger::from_config(ping(DomainsMode::FirstIpFromEach, 3), &[None, None]);
    assert!(probe.has_no_ips());
    probe.update_ips(&[Some(vec![address(7)]), Some(vec![address(8), address(9)])]);
    assert_eq!(probe.ips, vec![address(7), address(8)]);
    probe.update_ips(&[None]);
    assert!(probe.has_no_ips());
}

#[test]
fn no_run_begins_without_an_address() {
    let probe = pinger(&[], 3);
    assert!(probe.start().is_none());
}

#[test]
fn a_run_begins_at_the_first_address() {
    let probe = pinger(&[address(1), address(2)], 3);
    let monitor = probe.start().unwrap();
    assert_eq!(monitor.current(), address(1));
    assert_eq!(monitor.timeout(), 100);
}

#[test]
fn an_answer_keeps_the_address_and_pauses() {
    let probe = pinger(&[address(1), address(2)], 3);
    let mut monitor = probe.start().unwrap();
    assert_eq!(monitor.record(true), Step::Ping { address: address(1), after_ms: 1000 });
    assert_eq!(monitor.record(true), Step::Ping { address: address(1), after_ms: 1000 });
    assert_eq!(monitor.current(), address(1));
}

#[test]
fn a_failure_moves_on_at_once_and_wraps_around() {
    let probe = pinger(&[address(1), address(2), address(3)], 10);
    let mut monitor = probe.start().unwrap();
    assert_eq!(monitor.record(false), Step::Ping { address: address(2), after_ms: 0 });
    assert_eq!(monitor.record(false), Step::Ping { address: address(3), after_ms: 0 });
    assert_eq!(monitor.record(false), Step::Ping { address: address(1), after_ms: 0 });
    assert_eq!(monitor.record(false), Step::Ping { address: address(2), after_ms: 0 });
}

#[test]
fn a_single_address_is_pinged_again_after_a_failure() {
    let probe = pinger(&[address(1)], 3);
    let mut monitor = probe.start().unwrap();
    assert_eq!(monitor.record(false), Step::Ping { address: address(1), after_ms: 0 });
    assert_eq!(monitor.record(false), Step::Ping { address: address(1), after_ms: 0 });
    assert_eq!(monitor.record(false), Step::Stop);
}

#[test]
fn three_failures_in_a_row_stop_the_run() {
    let probe = pinger(&[address(1), address(2)], 3);
    let mut monitor = probe.start().unwrap();
    assert_eq!(monitor.record(false), Step::Ping { address: address(2), after_ms: 0 });
    assert_eq!(monitor.record(false), Step::Ping { address: address(1), after_ms: 0 });
    assert_eq!(monitor.record(false), Step::Stop);
}

#[test]
fn an_answer_on_any_address_forgets_the_failures() {
    let probe = pinger(&[address(1), address(2), address(3)], 3);
    let mut monitor = probe.start().unwrap();
    assert_eq!(monitor.record(false), Step::Ping { address: address(2), after_ms: 0 });
    assert_eq!(monitor.record(false), Step::Ping { address: address(3), after_ms: 0 });
    assert_eq!(monitor.record(true), Step::Ping { address: address(3), after_ms: 1000 });
    assert_eq!(monitor.record(false), Step::Ping { address: address(1), after_ms: 0 });
    assert_eq!(monitor.record(false), Step::Ping { address: address(2), after_ms: 0 });
    assert_eq!(monitor.record(false), Step::Stop);
}

#[test]
fn a_limit_of_one_stops_on_the_first_failure() {
    let probe = pinger(&[address(1)], 1);
    let mut monitor = probe.start().unwrap();
    assert_eq!(monitor.record(true), Step::Ping { address: address(1), after_ms: 1000 });
    assert_eq!(monitor.record(false), Step::Stop);
}

#[test]
fn a_limit_of_zero_stops_on_the_first_failure_only() {
    let probe = pinger(&[address(1)], 0);
    let mut monitor = probe.start().unwrap();
    assert_eq!(monitor.record(true), Step::Ping { address: address(1), after_ms: 1000 });
    assert_eq!(monitor.record(false), Step::Stop);
    assert_eq!(probe.pings_until_stop(&[true, true, true]), None);
    assert_eq!(probe.pings_until_stop(&[true, true, false]), Some(3));
}

#[test]
fn a_replayed_run_stops_after_the_first_run_of_failures() {
    let probe = pinger(&[address(1), address(2)], 3);
    let outcomes = [true, false, false, true, false, false, false, true, false, false, false];
    assert_eq!(probe.pings_until_stop(&outcomes), Some(7));
}

#[test]
fn a_replayed_run_goes_on_without_enough_failures_in_a_row() {
    let probe = pinger(&[address(1), address(2)], 3);
    assert_eq!(probe.pings_until_stop(&[false, false, true, false, false]), None);
    assert_eq!(probe.pings_until_stop(&[]), None);
    assert_eq!(probe.pings_until_stop(&[true; 20]), None);
}

#[test]
fn a_run_stops_exactly_when_enough_failures_stand_in_a_row() {
    let probe = pinger(&[address(1), address(2), address(3)], 3);
    for bits in 0u32..(1 << 10) {
        let outcomes: Vec<bool> = (0..10).map(|i| bits & (1 << i) != 0).collect();
        let run = outcomes.windows(3).position(|w| w.iter().all(|ok| !ok));
        assert_eq!(probe.pings_until_stop(&outcomes), run.map(|start| start + 3));
    }
}
