use ip_switch::apply::{Applier, ApplyTurn};
use ip_switch::backend::{
    Action, AddressReport, Command, CommandOutput, CommandResult, Event, ProbeOutcome,
};
use ip_switch::config::{ActiveSide, DhcpConfig, NetworkConfig, StaticConfig};
use ip_switch::error::{ConfigError, ConfigFault};
use ip_switch::failover::{AutoSwitchResult, DecideTurn, Failover, SwitchOutcome};
use ip_switch::network::auto_switch_network;

/// A simulated interface on a simulated network.
struct World {
    exists: bool,
    address: Option<String>,
    gateway: Option<String>,
    dhcp: bool,
    /// What the DHCP server hands out, if there is one.
    lease: Option<(String, String)>,
    /// Which hosts answer a check sent from which address.
    answers: Vec<(String, String)>,
    /// The command, counted from 1 among the commands run, that the
    /// system refuses, and with what.
    refused: Option<(usize, CommandOutput)>,
    commands: Vec<Command>,
    actions: Vec<Action>,
}

fn world() -> World {
    World {
        exists: true,
        address: None,
        gateway: None,
        dhcp: false,
        lease: None,
        answers: Vec::new(),
        refused: None,
        commands: Vec::new(),
        actions: Vec::new(),
    }
}

fn done() -> CommandResult {
    CommandResult::Completed(CommandOutput {
        success: true,
        exit_code: Some(0),
        stdout: String::new(),
        stderr: String::new(),
    })
}

fn perform(world: &mut World, action: &Action) -> Event {
    world.actions.push(action.clone());
    match action {
        Action::Resolve => Event::Resolved(world.exists),
        Action::Pause(_) => Event::Paused,
        Action::Observe => Event::Observed(Some(AddressReport {
            ip: world.address.clone(),
            gateway: world.gateway.clone(),
        })),
        Action::Probe { source, target, .. } => {
            let from = source.clone().unwrap_or_default();
            let reached = world.address.as_deref() == Some(from.as_str())
                && world.answers.iter().any(|(s, t)| *s == from && t == target);
            Event::Probed(ProbeOutcome { succeeded: reached })
        }
        Action::Run(command) => {
            world.commands.push(command.clone());
            if let Some((at, output)) = &world.refused {
                if *at == world.commands.len() {
                    return Event::Ran(CommandResult::Completed(output.clone()));
                }
            }
            match command {
                Command::RemoveDefaultRoute => world.gateway = None,
                Command::RemoveAddress => world.address = None,
                Command::AssignAddress { ip, .. } => world.address = Some(ip.clone()),
                Command::SetDefaultGateway { gateway } => world.gateway = Some(gateway.clone()),
                Command::DisableDhcp => world.dhcp = false,
                Command::EnableDhcp => {
                    world.dhcp = true;
                    match &world.lease {
                        Some((ip, gateway)) => {
                            world.address = Some(ip.clone());
                            world.gateway = Some(gateway.clone());
                        }
                        None => {
                            world.address = Some("169.254.17.4".to_string());
                            world.gateway = None;
                        }
                    }
                }
                Command::SetDns { .. }
                | Command::ResetDns
                | Command::RenewLease
                | Command::EnableAdapter
                | Command::DisableAdapter => {}
            }
            Event::Ran(done())
        }
    }
}

fn run(mut turn: DecideTurn, world: &mut World) -> Result<AutoSwitchResult, ConfigError> {
    let mut steps = 0;
    loop {
        match turn {
            DecideTurn::Done(result) => return result,
            DecideTurn::Next(machine, action) => {
                steps += 1;
                assert!(steps < 500, "the decision does not end");
                let event = perform(world, &action);
                turn = machine.step(event);
            }
        }
    }
}

fn static_profile(ip: &str, gateway: &str, target: &str) -> NetworkConfig {
    NetworkConfig {
        mode: "static".to_string(),
        dhcp: None,
        static_config: Some(StaticConfig {
            ip: ip.to_string(),
            subnet: "255.255.255.0".to_string(),
            gateway: gateway.to_string(),
            dns: Some(vec!["192.168.1.1".to_string()]),
        }),
        ping_target: target.to_string(),
    }
}

fn dhcp_profile(target: &str) -> NetworkConfig {
    NetworkConfig {
        mode: "dhcp".to_string(),
        dhcp: Some(DhcpConfig { dns: None }),
        static_config: None,
        ping_target: target.to_string(),
    }
}

fn answer(world: &mut World, from: &str, host: &str) {
    world.answers.push((from.to_string(), host.to_string()));
}

fn count_probes(world: &World, host: &str) -> usize {
    world
        .actions
        .iter()
        .filter(|a| matches!(a, Action::Probe { target, .. } if target == host))
        .count()
}

fn applies_of(world: &World, wanted: &Command) -> usize {
    world.commands.iter().filter(|c| *c == wanted).count()
}

#[test]
fn usable_current_profile_stays() {
    let mut w = world();
    answer(&mut w, "192.168.1.10", "192.168.1.1");
    answer(&mut w, "192.168.1.10", "8.8.8.8");
    let first = Failover::start(
        ActiveSide::Network1,
        static_profile("192.168.1.10", "192.168.1.1", "8.8.8.8"),
        dhcp_profile("1.1.1.1"),
    );
    let report = run(first, &mut w).unwrap();
    assert_eq!(report.result, "stay");
    assert_eq!(report.result, SwitchOutcome::Stay.label());
    assert_eq!(report.active_network, "network1");
    assert_eq!(report.active_ping_target, Some("8.8.8.8".to_string()));
    assert_eq!(report.message, "保持网络1 (连接正常)");
    assert_eq!(applies_of(&w, &Command::EnableDhcp), 0);
    assert_eq!(
        applies_of(
            &w,
            &Command::AssignAddress { ip: "192.168.1.10".to_string(), prefix: 24 }
        ),
        1
    );
    assert_eq!(count_probes(&w, "1.1.1.1"), 0);
}

#[test]
fn unreachable_gateway_switches_to_the_alternate() {
    let mut w = world();
    w.lease = Some(("10.0.0.5".to_string(), "10.0.0.1".to_string()));
    answer(&mut w, "10.0.0.5", "10.0.0.1");
    answer(&mut w, "10.0.0.5", "1.1.1.1");
    let first = Failover::start(
        ActiveSide::Network1,
        static_profile("192.168.1.10", "192.168.1.1", "8.8.8.8"),
        dhcp_profile("1.1.1.1"),
    );
    let report = run(first, &mut w).unwrap();
    assert_eq!(report.result, "switched");
    assert_eq!(report.active_network, "network2");
    assert_eq!(report.active_network, ActiveSide::Network1.other().label());
    assert_eq!(report.active_ping_target, Some("1.1.1.1".to_string()));
    assert_eq!(report.message, "已切换到网络2 (原网络1不可用)");
    assert_eq!(count_probes(&w, "192.168.1.1"), 2);
    assert_eq!(count_probes(&w, "8.8.8.8"), 0);
    assert_eq!(applies_of(&w, &Command::EnableDhcp), 1);
    assert!(w.dhcp);
    assert_eq!(w.address, Some("10.0.0.5".to_string()));
}

#[test]
fn switching_from_the_second_side_makes_the_first_active() {
    let mut w = world();
    answer(&mut w, "192.168.1.10", "192.168.1.1");
    answer(&mut w, "192.168.1.10", "8.8.8.8");
    let first = auto_switch_network(
        Some("network2"),
        static_profile("192.168.1.10", "192.168.1.1", "8.8.8.8"),
        dhcp_profile("1.1.1.1"),
    );
    let report = run(first, &mut w).unwrap();
    assert_eq!(report.result, "switched");
    assert_eq!(report.active_network, "network1");
    assert_eq!(report.active_ping_target, Some("8.8.8.8".to_string()));
    assert_eq!(report.message, "已切换到网络1 (原网络2不可用)");
}

#[test]
fn both_unusable_goes_back_to_the_current_profile() {
    let mut w = world();
    w.lease = Some(("10.0.0.5".to_string(), "10.0.0.1".to_string()));
    answer(&mut w, "192.168.1.10", "192.168.1.1");
    answer(&mut w, "10.0.0.5", "10.0.0.1");
    let first = Failover::start(
        ActiveSide::Network1,
        static_profile("192.168.1.10", "192.168.1.1", "8.8.8.8"),
        dhcp_profile("1.1.1.1"),
    );
    let report = run(first, &mut w).unwrap();
    assert_eq!(report.result, "both_failed");
    assert_eq!(report.active_network, "network1");
    assert_eq!(report.active_ping_target, None);
    assert_eq!(report.message, "异常：网络1 与 网络2 都无法ping通，已回退到网络1");
    assert_eq!(count_probes(&w, "8.8.8.8"), 2);
    assert_eq!(count_probes(&w, "1.1.1.1"), 2);
    assert_eq!(
        applies_of(
            &w,
            &Command::AssignAddress { ip: "192.168.1.10".to_string(), prefix: 24 }
        ),
        2
    );
    assert_eq!(applies_of(&w, &Command::EnableDhcp), 1);
    assert_eq!(w.address, Some("192.168.1.10".to_string()));
    assert_eq!(w.gateway, Some("192.168.1.1".to_string()));
    assert!(!w.dhcp);
    assert_eq!(w.commands.last(), Some(&Command::SetDns { servers: vec!["192.168.1.1".to_string()] }));
}

#[test]
fn missing_interface_ends_the_decision() {
    let mut w = world();
    w.exists = false;
    let first = Failover::start(
        ActiveSide::Network1,
        static_profile("192.168.1.10", "192.168.1.1", "8.8.8.8"),
        dhcp_profile("1.1.1.1"),
    );
    assert_eq!(run(first, &mut w), Err(ConfigError::InterfaceNotFound));
    assert_eq!(w.actions, vec![Action::Resolve]);
}

#[test]
fn decision_begins_by_resolving_the_interface() {
    let first = Failover::start(
        ActiveSide::Network2,
        dhcp_profile("a.example"),
        dhcp_profile("b.example"),
    );
    match first {
        DecideTurn::Next(_, action) => assert_eq!(action, Action::Resolve),
        DecideTurn::Done(_) => panic!("ended before it began"),
    }
}

#[test]
fn answer_of_the_wrong_kind_counts_as_unresolved() {
    let first = Failover::start(
        ActiveSide::Network1,
        dhcp_profile("a.example"),
        dhcp_profile("b.example"),
    );
    match first {
        DecideTurn::Next(machine, _) => match machine.step(Event::Paused) {
            DecideTurn::Done(result) => assert_eq!(result, Err(ConfigError::InterfaceNotFound)),
            DecideTurn::Next(..) => panic!("went on without the interface"),
        },
        DecideTurn::Done(_) => panic!("ended before it began"),
    }
}

#[test]
fn failed_change_of_the_current_profile_ends_the_decision() {
    let mut w = world();
    w.refused = Some((
        4,
        CommandOutput {
            success: false,
            exit_code: Some(1),
            stdout: String::new(),
            stderr: "  Access is denied \r\n".to_string(),
        },
    ));
    let first = Failover::start(
        ActiveSide::Network1,
        static_profile("192.168.1.10", "192.168.1.1", "8.8.8.8"),
        dhcp_profile("1.1.1.1"),
    );
    assert_eq!(
        run(first, &mut w),
        Err(ConfigError::PermissionDenied("Access is denied".to_string()))
    );
    assert_eq!(applies_of(&w, &Command::EnableDhcp), 0);
    assert_eq!(w.commands.len(), 4);
}

#[test]
fn malformed_current_profile_ends_the_decision_before_any_command() {
    let mut w = world();
    let mut bad = static_profile("192.168.1.10", "192.168.1.1", "8.8.8.8");
    bad.static_config.as_mut().unwrap().subnet = "255.255.255.3".to_string();
    let first = Failover::start(ActiveSide::Network1, bad, dhcp_profile("1.1.1.1"));
    assert_eq!(run(first, &mut w), Err(ConfigError::InvalidConfig(ConfigFault::BadMaskValue)));
    assert!(w.commands.is_empty());
}

#[test]
fn malformed_alternate_ends_the_decision_when_it_is_needed() {
    let mut w = world();
    let mut bad = dhcp_profile("1.1.1.1");
    bad.mode = "bridge".to_string();
    let first = Failover::start(
        ActiveSide::Network1,
        static_profile("192.168.1.10", "192.168.1.1", "8.8.8.8"),
        bad,
    );
    assert_eq!(
        run(first, &mut w),
        Err(ConfigError::InvalidConfig(ConfigFault::UnknownMode("bridge".to_string())))
    );
}

#[test]
fn failed_rollback_is_swallowed() {
    let mut w = world();
    w.lease = Some(("10.0.0.5".to_string(), "10.0.0.1".to_string()));
    // 6 commands for the static profile, 5 for DHCP, then the rollback's
    // fourth command, which binds the address, is refused.
    w.refused = Some((
        15,
        CommandOutput {
            success: false,
            exit_code: Some(1),
            stdout: String::new(),
            stderr: "The object already exists.".to_string(),
        },
    ));
    let mut current = static_profile("192.168.1.10", "192.168.1.1", "8.8.8.8");
    current.static_config.as_mut().unwrap().dns = None;
    let first = Failover::start(ActiveSide::Network1, current, dhcp_profile("1.1.1.1"));
    let report = run(first, &mut w).unwrap();
    assert_eq!(report.result, "both_failed");
    assert_eq!(report.active_ping_target, None);
    assert_eq!(w.commands.len(), 15);
}

#[test]
fn decision_changes_the_configuration_three_times_at_most() {
    let mut w = world();
    w.lease = Some(("10.0.0.5".to_string(), "10.0.0.1".to_string()));
    let first = Failover::start(
        ActiveSide::Network1,
        static_profile("192.168.1.10", "192.168.1.1", "8.8.8.8"),
        dhcp_profile("1.1.1.1"),
    );
    run(first, &mut w).unwrap();
    let begun = applies_of(&w, &Command::RemoveDefaultRoute);
    assert_eq!(begun, 3);
}

#[test]
fn interface_without_an_address_is_never_probed_from() {
    let mut w = world();
    // The address never arrives: binding it is refused, and so is the
    // lease.
    let first = Failover::start(
        ActiveSide::Network1,
        dhcp_profile("8.8.8.8"),
        dhcp_profile("1.1.1.1"),
    );
    let mut turn = first;
    let mut probes = 0;
    let mut steps = 0;
    let result = loop {
        match turn {
            DecideTurn::Done(result) => break result,
            DecideTurn::Next(machine, action) => {
                steps += 1;
                assert!(steps < 500);
                let event = match &action {
                    Action::Observe => Event::Observed(Some(AddressReport {
                        ip: None,
                        gateway: Some("10.0.0.1".to_string()),
                    })),
                    Action::Probe { .. } => {
                        probes += 1;
                        Event::Probed(ProbeOutcome { succeeded: true })
                    }
                    other => perform(&mut w, other),
                };
                turn = machine.step(event);
            }
        }
    };
    assert_eq!(probes, 0);
    assert_eq!(result.unwrap().result, "both_failed");
}

#[test]
fn every_probe_is_sent_from_the_reported_address() {
    let mut w = world();
    w.lease = Some(("10.0.0.5".to_string(), "10.0.0.1".to_string()));
    answer(&mut w, "10.0.0.5", "10.0.0.1");
    let first = Failover::start(
        ActiveSide::Network2,
        static_profile("192.168.1.10", "192.168.1.1", "8.8.8.8"),
        dhcp_profile("1.1.1.1"),
    );
    run(first, &mut w).unwrap();
    let mut seen = 0;
    for (at, action) in w.actions.iter().enumerate() {
        if let Action::Probe { source, .. } = action {
            seen += 1;
            assert!(matches!(w.actions[at - 1], Action::Observe));
            let from = source.as_deref().unwrap();
            assert!(from == "10.0.0.5" || from == "192.168.1.10");
        }
    }
    assert!(seen > 0);
}

#[test]
fn blank_reported_address_is_no_source() {
    let first = Failover::start(
        ActiveSide::Network1,
        static_profile("192.168.1.10", "192.168.1.1", "8.8.8.8"),
        dhcp_profile("1.1.1.1"),
    );
    let mut w = world();
    let mut turn = first;
    let mut probes = 0;
    let mut steps = 0;
    loop {
        match turn {
            DecideTurn::Done(_) => break,
            DecideTurn::Next(machine, action) => {
                steps += 1;
                assert!(steps < 500);
                let event = match &action {
                    Action::Observe => Event::Observed(Some(AddressReport {
                        ip: Some("   ".to_string()),
                        gateway: Some("10.0.0.1".to_string()),
                    })),
                    Action::Probe { .. } => {
                        probes += 1;
                        Event::Probed(ProbeOutcome { succeeded: true })
                    }
                    other => perform(&mut w, other),
                };
                turn = machine.step(event);
            }
        }
    }
    assert_eq!(probes, 0);
}

#[test]
fn remembered_side_is_read_from_its_label() {
    assert_eq!(ActiveSide::from_label(Some("network2")), ActiveSide::Network2);
    assert_eq!(ActiveSide::from_label(Some("network1")), ActiveSide::Network1);
    assert_eq!(ActiveSide::from_label(Some("anything")), ActiveSide::Network1);
    assert_eq!(ActiveSide::from_label(None), ActiveSide::Network1);
    assert_eq!(ActiveSide::Network2.label(), "network2");
    assert_eq!(ActiveSide::Network1.other(), ActiveSide::Network2);
    assert_eq!(ActiveSide::Network2.other(), ActiveSide::Network1);
}

#[test]
fn reports_are_worded_by_side() {
    let stay = AutoSwitchResult::stay(ActiveSide::Network2, "host");
    assert_eq!(stay.message, "保持网络2 (连接正常)");
    assert_eq!(stay.active_network, "network2");
    let failed = AutoSwitchResult::both_failed(ActiveSide::Network2);
    assert_eq!(failed.message, "异常：网络2 与 网络1 都无法ping通，已回退到网络2");
    assert_eq!(failed.result, SwitchOutcome::BothFailed.label());
    let switched = AutoSwitchResult::switched(ActiveSide::Network1, "host");
    assert_eq!(switched.result, SwitchOutcome::Switched.label());
    assert_eq!(switched.active_ping_target, Some("host".to_string()));
}

#[test]
fn longest_decision_ends_within_its_bound() {
    let mut w = world();
    // Leases that never arrive and gateways that never answer: every
    // wait and every series of checks runs to its end.
    let other = static_profile("192.168.1.10", "192.168.1.1", "8.8.8.8");
    let first = Failover::start(ActiveSide::Network1, dhcp_profile("1.1.1.1"), other);
    let mut turn = first;
    let mut asked = 0;
    let result = loop {
        match turn {
            DecideTurn::Done(result) => break result,
            DecideTurn::Next(machine, action) => {
                asked += 1;
                assert!(asked <= 120, "asked for more than 120 things");
                let event = match &action {
                    Action::Observe => Event::Observed(Some(AddressReport {
                        ip: Some("169.254.1.1".to_string()),
                        gateway: Some("169.254.0.1".to_string()),
                    })),
                    other => perform(&mut w, other),
                };
                turn = machine.step(event);
            }
        }
    };
    assert_eq!(result.unwrap().result, "both_failed");
    assert_eq!(asked, 57);
}

fn apply(cfg: &NetworkConfig, world: &mut World) -> Result<(), ConfigError> {
    let mut turn = Applier::start(cfg);
    loop {
        match turn {
            ApplyTurn::Done(result) => return result,
            ApplyTurn::Next(machine, action) => {
                let event = perform(world, &action);
                turn = machine.step(event);
            }
        }
    }
}

fn seen(world: &World) -> (Option<String>, Option<String>, bool) {
    (world.address.clone(), world.gateway.clone(), world.dhcp)
}

#[test]
fn applying_a_static_profile_twice_is_as_applying_it_once() {
    let cfg = static_profile("192.168.1.10", "192.168.1.1", "8.8.8.8");
    let mut w = world();
    w.lease = Some(("10.0.0.5".to_string(), "10.0.0.1".to_string()));
    apply(&dhcp_profile("1.1.1.1"), &mut w).unwrap();
    apply(&cfg, &mut w).unwrap();
    let once = seen(&w);
    assert_eq!(
        once,
        (Some("192.168.1.10".to_string()), Some("192.168.1.1".to_string()), false)
    );
    apply(&cfg, &mut w).unwrap();
    assert_eq!(seen(&w), once);
}

#[test]
fn applying_a_dhcp_profile_twice_is_as_applying_it_once() {
    let cfg = dhcp_profile("1.1.1.1");
    let mut w = world();
    w.lease = Some(("10.0.0.5".to_string(), "10.0.0.1".to_string()));
    apply(&static_profile("192.168.1.10", "192.168.1.1", "8.8.8.8"), &mut w).unwrap();
    apply(&cfg, &mut w).unwrap();
    let once = seen(&w);
    assert_eq!(once, (Some("10.0.0.5".to_string()), Some("10.0.0.1".to_string()), true));
    apply(&cfg, &mut w).unwrap();
    assert_eq!(seen(&w), once);
}

