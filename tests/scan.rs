use romb::probe::{open_ports, report, IpAddress, ProbeResult};
use romb::scanner::{build_options, build_scanner, Phase, ScannerError};
use std::time::Duration;

const LOCAL: IpAddress = IpAddress::V4([127, 0, 0, 1]);

fn configured(start_port: u16, max_port: u16) -> romb::scanner::Scanner {
    let mut s = build_scanner(build_options());
    s.set_target("127.0.0.1".to_string());
    s.set_port_range(start_port, max_port);
    s.set_timeout(Duration::from_secs(2));
    s
}

#[test]
fn inverted_range_is_rejected_before_lookup() {
    let mut s = configured(10, 5);
    assert_eq!(s.start(), Err(ScannerError::InvalidPortRange));
    assert_eq!(s.phase, Phase::Failed(ScannerError::InvalidPortRange));
}

#[test]
fn equal_bounds_are_rejected() {
    let mut s = configured(7, 7);
    assert_eq!(s.start(), Err(ScannerError::InvalidPortRange));
}

#[test]
fn empty_lookup_is_invalid_target() {
    let mut s = configured(1, 3);
    assert_eq!(s.start(), Ok(()));
    assert_eq!(s.on_resolved(Some(Vec::new())), Err(ScannerError::InvalidTarget));
    assert_eq!(s.phase, Phase::Failed(ScannerError::InvalidTarget));
}

#[test]
fn failed_lookup_is_invalid_target() {
    let mut s = configured(1, 3);
    assert_eq!(s.start(), Ok(()));
    assert_eq!(s.on_resolved(None), Err(ScannerError::InvalidTarget));
}

#[test]
fn single_port_range_plans_port_one() {
    let mut s = configured(1, 2);
    assert_eq!(s.start(), Ok(()));
    let tasks = s.on_resolved(Some(vec![LOCAL])).unwrap();
    assert_eq!(tasks.len(), 1);
    assert_eq!(tasks[0].port, 1);
    assert_eq!(tasks[0].ip, LOCAL);
    assert_eq!(tasks[0].timeout, Duration::from_secs(2));
}

#[test]
fn first_address_is_probed() {
    let mut s = configured(5000, 5003);
    s.start().unwrap();
    let other = IpAddress::V6([0, 0, 0, 0, 0, 0, 0, 1]);
    let tasks = s.on_resolved(Some(vec![other, LOCAL])).unwrap();
    let ports: Vec<u16> = tasks.iter().map(|t| t.port).collect();
    assert_eq!(ports, vec![5000, 5001, 5002]);
    assert!(tasks.iter().all(|t| t.ip == other));
}

#[test]
fn example_scan_reports_only_the_listener() {
    let mut s = configured(5999, 6002);
    s.start().unwrap();
    let tasks = s.on_resolved(Some(vec![LOCAL])).unwrap();
    let results: Vec<ProbeResult> = tasks
        .iter()
        .map(|t| ProbeResult { port: t.port, open: t.port == 6000 })
        .collect();
    assert_eq!(s.finish(&results), vec![6000]);
    assert_eq!(s.phase, Phase::Done);
}

#[test]
fn known_open_set_is_reported_in_completion_order() {
    let results = vec![
        ProbeResult { port: 5005, open: true },
        ProbeResult { port: 5001, open: false },
        ProbeResult { port: 5000, open: true },
    ];
    assert_eq!(open_ports(&results), vec![5005, 5000]);
}

#[test]
fn repeated_scan_reports_same_set() {
    let first = vec![
        ProbeResult { port: 5000, open: true },
        ProbeResult { port: 5005, open: true },
        ProbeResult { port: 5003, open: false },
    ];
    let second = vec![
        ProbeResult { port: 5003, open: false },
        ProbeResult { port: 5005, open: true },
        ProbeResult { port: 5000, open: true },
    ];
    let mut a = open_ports(&first);
    let mut b = open_ports(&second);
    a.sort();
    b.sort();
    assert_eq!(a, b);
}

#[test]
fn report_emits_open_ports_only() {
    assert_eq!(report(&ProbeResult { port: 22, open: true }), Some(22));
    assert_eq!(report(&ProbeResult { port: 23, open: false }), None);
}

#[test]
fn lookup_name_appends_port_zero() {
    let s = configured(1, 2);
    assert_eq!(s.lookup_name(), "127.0.0.1:0");
}

#[test]
fn error_messages() {
    assert_eq!(ScannerError::InvalidPortRange.message(), "The given port range is invalid.");
    assert_eq!(ScannerError::InvalidTarget.message(), "The given target could not be resolved.");
}

#[test]
fn options_accessors_write_through() {
    let mut o = build_options();
    *o.udp_mut() = true;
    *o.response_mut() = true;
    assert!(o.udp && o.response && !o.tcp);
    *o.tcp_mut() = true;
    assert!(o.tcp);
}

#[test]
fn new_scanner_defaults() {
    let s = build_scanner(build_options());
    assert_eq!(s.target, "");
    assert_eq!((s.start_port, s.max_port), (0, 0));
    assert_eq!(s.timeout, Duration::from_secs(10));
    assert_eq!(s.phase, Phase::Configuring);
}
