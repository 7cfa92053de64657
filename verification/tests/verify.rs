use ip_switch::backend::{Action, AddressReport, Event, ProbeOutcome, Turn};
use ip_switch::config::{DhcpConfig, NetworkConfig, StaticConfig};
use ip_switch::network::test_side_connectivity;
use ip_switch::verify::{usable, Verifier};

fn fixed(gateway: &str) -> NetworkConfig {
    NetworkConfig {
        mode: "static".to_string(),
        dhcp: None,
        static_config: Some(StaticConfig {
            ip: "192.168.1.10".to_string(),
            subnet: "255.255.255.0".to_string(),
            gateway: gateway.to_string(),
            dns: None,
        }),
        ping_target: "8.8.8.8".to_string(),
    }
}

fn leased() -> NetworkConfig {
    NetworkConfig {
        mode: "dhcp".to_string(),
        dhcp: Some(DhcpConfig { dns: None }),
        static_config: None,
        ping_target: "1.1.1.1".to_string(),
    }
}

/// Runs a verification to its end on an interface that reports the
/// address `ip` and the gateway `gateway`, in a network in which the
/// hosts `answering` reply.
fn verify(
    first: Turn<Verifier>,
    ip: Option<&str>,
    gateway: Option<&str>,
    answering: &[&str],
) -> (Vec<Action>, bool) {
    let mut actions = Vec::new();
    let mut turn = first;
    loop {
        match turn {
            Turn::Done(result) => return (actions, result),
            Turn::Next(machine, action) => {
                assert!(actions.len() < 100);
                let event = match &action {
                    Action::Observe => Event::Observed(Some(AddressReport {
                        ip: ip.map(String::from),
                        gateway: gateway.map(String::from),
                    })),
                    Action::Probe { target, .. } => Event::Probed(ProbeOutcome {
                        succeeded: answering.contains(&target.as_str()),
                    }),
                    _ => Event::Paused,
                };
                actions.push(action);
                turn = machine.step(event);
            }
        }
    }
}

fn probes_of(actions: &[Action], host: &str) -> usize {
    actions.iter().filter(|a| matches!(a, Action::Probe { target, .. } if target == host)).count()
}

#[test]
fn unspecified_static_gateway_is_refused_without_a_probe() {
    assert!(matches!(Verifier::start(&fixed("0.0.0.0")), Turn::Done(false)));
    assert!(matches!(Verifier::start(&fixed(" 0.0.0.0\t")), Turn::Done(false)));
    assert!(matches!(test_side_connectivity(&fixed("0.0.0.0")), Turn::Done(false)));
}

#[test]
fn empty_static_gateway_is_refused_without_a_probe() {
    assert!(matches!(Verifier::start(&fixed("")), Turn::Done(false)));
    assert!(matches!(Verifier::start(&fixed("   ")), Turn::Done(false)));
    let mut cfg = fixed("192.168.1.1");
    cfg.static_config = None;
    assert!(matches!(Verifier::start(&cfg), Turn::Done(false)));
}

#[test]
fn dhcp_interface_without_a_gateway_is_refused_without_a_probe() {
    for gateway in [None, Some(""), Some("0.0.0.0"), Some("  ")] {
        let (actions, usable) =
            verify(Verifier::start(&leased()), Some("10.0.0.5"), gateway, &["1.1.1.1"]);
        assert!(!usable);
        assert_eq!(actions, vec![Action::Observe]);
    }
}

#[test]
fn unreadable_report_leaves_dhcp_without_a_gateway() {
    match Verifier::start(&leased()) {
        Turn::Next(machine, action) => {
            assert_eq!(action, Action::Observe);
            assert!(matches!(machine.step(Event::Observed(None)), Turn::Done(false)));
        }
        Turn::Done(_) => panic!("ended before it began"),
    }
}

#[test]
fn gateway_that_does_not_answer_ends_the_verification() {
    let (actions, usable) =
        verify(Verifier::start(&fixed("192.168.1.1")), Some("192.168.1.10"), None, &["8.8.8.8"]);
    assert!(!usable);
    assert_eq!(probes_of(&actions, "192.168.1.1"), 2);
    assert_eq!(probes_of(&actions, "8.8.8.8"), 0);
    assert_eq!(actions.iter().filter(|a| **a == Action::Pause(300)).count(), 1);
}

#[test]
fn gateway_and_target_must_both_answer() {
    let (actions, usable) = verify(
        Verifier::start(&fixed("192.168.1.1")),
        Some("192.168.1.10"),
        None,
        &["192.168.1.1", "8.8.8.8"],
    );
    assert!(usable);
    assert_eq!(
        actions,
        vec![
            Action::Observe,
            Action::Probe {
                source: Some("192.168.1.10".to_string()),
                target: "192.168.1.1".to_string(),
                timeout_secs: 1
            },
            Action::Observe,
            Action::Probe {
                source: Some("192.168.1.10".to_string()),
                target: "8.8.8.8".to_string(),
                timeout_secs: 1
            },
        ]
    );
}

#[test]
fn target_that_does_not_answer_makes_the_profile_unusable() {
    let (actions, usable) = verify(
        Verifier::start(&fixed("192.168.1.1")),
        Some("192.168.1.10"),
        None,
        &["192.168.1.1"],
    );
    assert!(!usable);
    assert_eq!(probes_of(&actions, "192.168.1.1"), 1);
    assert_eq!(probes_of(&actions, "8.8.8.8"), 2);
}

#[test]
fn dhcp_gateway_is_the_one_the_interface_reports() {
    let (actions, usable) = verify(
        Verifier::start(&leased()),
        Some("10.0.0.5"),
        Some(" 10.0.0.1 "),
        &["10.0.0.1", "1.1.1.1"],
    );
    assert!(usable);
    assert_eq!(probes_of(&actions, "10.0.0.1"), 1);
    assert_eq!(probes_of(&actions, "1.1.1.1"), 1);
    assert_eq!(actions[0], Action::Observe);
}

#[test]
fn static_gateway_is_probed_without_the_white_space_around_it() {
    let (actions, _) =
        verify(Verifier::start(&fixed(" 192.168.1.1\n")), Some("192.168.1.10"), None, &[]);
    assert_eq!(probes_of(&actions, "192.168.1.1"), 2);
}

#[test]
fn profile_of_no_known_mode_is_not_usable() {
    let mut cfg = leased();
    cfg.mode = "DHCP".to_string();
    assert!(matches!(Verifier::start(&cfg), Turn::Done(false)));
}

#[test]
fn interface_without_an_address_is_not_usable_and_not_probed() {
    let (actions, usable) = verify(
        Verifier::start(&fixed("192.168.1.1")),
        None,
        None,
        &["192.168.1.1", "8.8.8.8"],
    );
    assert!(!usable);
    assert_eq!(actions, vec![Action::Observe, Action::Pause(300), Action::Observe]);
}

#[test]
fn gateway_is_usable_unless_blank_or_unspecified() {
    assert_eq!(usable("192.168.1.1"), Some("192.168.1.1".to_string()));
    assert_eq!(usable("  fe80::1 "), Some("fe80::1".to_string()));
    assert_eq!(usable("0.0.0.0"), None);
    assert_eq!(usable(""), None);
    assert_eq!(usable(" \t "), None);
    assert_eq!(usable("0.0.0.00"), Some("0.0.0.00".to_string()));
}
