use ip_switch::backend::{Action, AddressReport, Event, Turn};
use ip_switch::config::{DhcpConfig, NetworkConfig, StaticConfig};
use ip_switch::network::wait_adapter_ready;
use ip_switch::readiness::{Goal, Waiter};

fn leased() -> NetworkConfig {
    NetworkConfig {
        mode: "dhcp".to_string(),
        dhcp: Some(DhcpConfig { dns: None }),
        static_config: None,
        ping_target: "1.1.1.1".to_string(),
    }
}

fn fixed(ip: &str) -> NetworkConfig {
    NetworkConfig {
        mode: "static".to_string(),
        dhcp: None,
        static_config: Some(StaticConfig {
            ip: ip.to_string(),
            subnet: "255.255.255.0".to_string(),
            gateway: "192.168.1.1".to_string(),
            dns: None,
        }),
        ping_target: "8.8.8.8".to_string(),
    }
}

fn report(ip: Option<&str>, gateway: Option<&str>) -> AddressReport {
    AddressReport { ip: ip.map(String::from), gateway: gateway.map(String::from) }
}

/// Runs a wait to its end; the interface reports `reports[n]` at the look
/// number `n` and the last of them from then on.
fn wait(first: Turn<Waiter>, reports: Vec<Option<AddressReport>>) -> (Vec<Action>, bool) {
    let mut actions = Vec::new();
    let mut looks = 0;
    let mut turn = first;
    loop {
        match turn {
            Turn::Done(result) => return (actions, result),
            Turn::Next(machine, action) => {
                assert!(actions.len() < 50);
                let event = match &action {
                    Action::Observe => {
                        let at = looks.min(reports.len() - 1);
                        looks += 1;
                        Event::Observed(reports[at].clone())
                    }
                    _ => Event::Paused,
                };
                actions.push(action);
                turn = machine.step(event);
            }
        }
    }
}

fn count(actions: &[Action], wanted: &Action) -> usize {
    actions.iter().filter(|a| *a == wanted).count()
}

#[test]
fn dhcp_wait_gives_up_after_six_looks() {
    let (actions, converged) = wait(
        Waiter::start(&leased(), 6000),
        vec![Some(report(Some("169.254.3.4"), None))],
    );
    assert!(!converged);
    assert_eq!(count(&actions, &Action::Observe), 6);
    assert_eq!(count(&actions, &Action::Pause(1000)), 6);
    assert_eq!(actions.len(), 12);
}

#[test]
fn static_wait_gives_up_after_eight_looks() {
    let (actions, converged) =
        wait(Waiter::start(&fixed("192.168.1.10"), 1600), vec![Some(report(None, None))]);
    assert!(!converged);
    assert_eq!(count(&actions, &Action::Observe), 8);
    assert_eq!(count(&actions, &Action::Pause(200)), 8);
}

#[test]
fn wait_ends_with_the_look_that_shows_the_lease() {
    let (actions, converged) = wait(
        Waiter::start(&leased(), 6000),
        vec![
            Some(report(None, None)),
            Some(report(Some("169.254.3.4"), Some("10.0.0.1"))),
            Some(report(Some("10.0.0.5"), Some("10.0.0.1"))),
        ],
    );
    assert!(converged);
    assert_eq!(count(&actions, &Action::Observe), 3);
    assert_eq!(count(&actions, &Action::Pause(1000)), 2);
}

#[test]
fn lease_needs_an_address_outside_the_link_local_block() {
    let goal = Goal::Lease;
    assert!(goal.met_by(&report(Some("10.0.0.5"), Some("10.0.0.1"))));
    assert!(!goal.met_by(&report(Some("169.254.0.1"), Some("10.0.0.1"))));
    assert!(!goal.met_by(&report(None, Some("10.0.0.1"))));
    assert!(goal.met_by(&report(Some("169.25.4.1"), Some("10.0.0.1"))));
}

#[test]
fn lease_needs_a_gateway_other_than_the_unspecified_address() {
    let goal = Goal::Lease;
    assert!(!goal.met_by(&report(Some("10.0.0.5"), Some("0.0.0.0"))));
    assert!(!goal.met_by(&report(Some("10.0.0.5"), None)));
}

#[test]
fn static_goal_needs_exactly_the_configured_address() {
    let goal = Goal::Address("192.168.1.10".to_string());
    assert!(goal.met_by(&report(Some("192.168.1.10"), None)));
    assert!(!goal.met_by(&report(Some("192.168.1.100"), Some("192.168.1.1"))));
    assert!(!goal.met_by(&report(Some("192.168.1.1"), None)));
    assert!(!goal.met_by(&report(None, None)));
    assert!(goal.shown_by(&Event::Observed(Some(report(Some("192.168.1.10"), None)))));
    assert!(!goal.shown_by(&Event::Observed(None)));
    assert!(!goal.shown_by(&Event::Paused));
}

#[test]
fn static_wait_ends_when_the_address_shows() {
    let (actions, converged) = wait(
        Waiter::start(&fixed("192.168.1.10"), 1600),
        vec![Some(report(Some("192.168.1.99"), None)), Some(report(Some("192.168.1.10"), None))],
    );
    assert!(converged);
    assert_eq!(actions, vec![Action::Observe, Action::Pause(200), Action::Observe]);
}

#[test]
fn report_that_cannot_be_read_shows_nothing() {
    let (actions, converged) = wait(Waiter::start(&leased(), 6000), vec![None]);
    assert!(!converged);
    assert_eq!(count(&actions, &Action::Observe), 6);
}

#[test]
fn shorter_wait_takes_fewer_looks() {
    let (actions, _) = wait(Waiter::start(&leased(), 2500), vec![None]);
    assert_eq!(count(&actions, &Action::Observe), 2);
    let (actions, _) = wait(Waiter::start(&fixed("192.168.1.10"), 999), vec![None]);
    assert_eq!(count(&actions, &Action::Observe), 4);
    let (actions, _) = wait(Waiter::start(&leased(), u64::MAX), vec![None]);
    assert_eq!(count(&actions, &Action::Observe), 6);
}

#[test]
fn no_time_means_no_look() {
    assert!(matches!(Waiter::start(&leased(), 0), Turn::Done(false)));
    assert!(matches!(Waiter::start(&leased(), 999), Turn::Done(false)));
    assert!(matches!(Waiter::start(&fixed("192.168.1.10"), 199), Turn::Done(false)));
}

#[test]
fn other_modes_have_nothing_to_wait_for() {
    let mut cfg = leased();
    cfg.mode = "pppoe".to_string();
    assert!(matches!(Waiter::start(&cfg, 6000), Turn::Done(false)));
    assert!(matches!(wait_adapter_ready(&cfg), Turn::Done(false)));
    assert_eq!(Waiter::full_wait(&cfg), 0);
}

#[test]
fn static_profile_without_an_address_has_nothing_to_wait_for() {
    let mut cfg = fixed("");
    assert!(matches!(Waiter::start(&cfg, 1600), Turn::Done(false)));
    cfg.static_config = None;
    assert!(matches!(Waiter::start(&cfg, 1600), Turn::Done(false)));
}

#[test]
fn full_wait_is_six_seconds_for_dhcp_and_less_than_two_for_static() {
    assert_eq!(Waiter::full_wait(&leased()), 6000);
    assert_eq!(Waiter::full_wait(&fixed("192.168.1.10")), 1600);
    let (actions, _) = wait(wait_adapter_ready(&leased()), vec![None]);
    assert_eq!(count(&actions, &Action::Observe), 6);
    let (actions, _) = wait(wait_adapter_ready(&fixed("192.168.1.10")), vec![None]);
    assert_eq!(count(&actions, &Action::Observe), 8);
}
