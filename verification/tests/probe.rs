use ip_switch::backend::{Action, AddressReport, Event, ProbeOutcome, Turn};
use ip_switch::error::{CommandFailure, ConfigError};
use ip_switch::network::{
    ping_test, ping_test_on_adapter, ping_test_on_adapter_with_retries, ping_test_with_retries,
};
use ip_switch::probe::Prober;

fn address(ip: Option<&str>) -> Event {
    Event::Observed(Some(AddressReport { ip: ip.map(String::from), gateway: None }))
}

/// Runs a series to its end on an interface with the address `ip`; the
/// check number `n`, counted from 1, succeeds where `n == succeed_at`.
fn probe(first: Turn<Prober>, ip: Option<&str>, succeed_at: usize) -> (Vec<Action>, bool) {
    let mut actions = Vec::new();
    let mut checks = 0;
    let mut turn = first;
    loop {
        match turn {
            Turn::Done(result) => return (actions, result),
            Turn::Next(machine, action) => {
                assert!(actions.len() < 100);
                let event = match &action {
                    Action::Observe => address(ip),
                    Action::Probe { .. } => {
                        checks += 1;
                        Event::Probed(ProbeOutcome { succeeded: checks == succeed_at })
                    }
                    _ => Event::Paused,
                };
                actions.push(action);
                turn = machine.step(event);
            }
        }
    }
}

fn checks(actions: &[Action]) -> Vec<&Action> {
    actions.iter().filter(|a| matches!(a, Action::Probe { .. })).collect()
}

fn pauses(actions: &[Action]) -> Vec<&Action> {
    actions.iter().filter(|a| matches!(a, Action::Pause(_))).collect()
}

#[test]
fn bound_check_is_sent_from_the_address_of_the_interface() {
    let (actions, reached) =
        probe(Prober::start("8.8.8.8", 1, true, 2, 300), Some("192.168.1.10"), 1);
    assert!(reached);
    assert_eq!(
        actions,
        vec![
            Action::Observe,
            Action::Probe {
                source: Some("192.168.1.10".to_string()),
                target: "8.8.8.8".to_string(),
                timeout_secs: 1
            },
        ]
    );
}

#[test]
fn failed_checks_are_retried_after_a_pause() {
    let (actions, reached) =
        probe(Prober::start("8.8.8.8", 2, true, 3, 250), Some("192.168.1.10"), 0);
    assert!(!reached);
    assert_eq!(checks(&actions).len(), 3);
    assert_eq!(pauses(&actions), vec![&Action::Pause(250), &Action::Pause(250)]);
    assert_eq!(actions.iter().filter(|a| **a == Action::Observe).count(), 3);
    assert!(matches!(actions.last(), Some(Action::Probe { .. })));
}

#[test]
fn first_reply_ends_the_series() {
    let (actions, reached) =
        probe(Prober::start("8.8.8.8", 1, true, 5, 300), Some("192.168.1.10"), 2);
    assert!(reached);
    assert_eq!(checks(&actions).len(), 2);
    assert_eq!(pauses(&actions).len(), 1);
}

#[test]
fn request_for_no_attempts_gets_one() {
    let (actions, reached) = probe(Prober::start("host", 1, false, 0, 300), None, 0);
    assert!(!reached);
    assert_eq!(checks(&actions).len(), 1);
    assert!(pauses(&actions).is_empty());
}

#[test]
fn free_check_has_no_source() {
    let (actions, reached) = probe(Prober::start("host.example", 4, false, 1, 0), None, 1);
    assert!(reached);
    assert_eq!(
        actions,
        vec![Action::Probe { source: None, target: "host.example".to_string(), timeout_secs: 4 }]
    );
}

#[test]
fn interface_without_an_address_fails_every_attempt_unprobed() {
    let (actions, reached) = probe(Prober::start("8.8.8.8", 1, true, 2, 300), None, 1);
    assert!(!reached);
    assert!(checks(&actions).is_empty());
    assert_eq!(actions, vec![Action::Observe, Action::Pause(300), Action::Observe]);
}

#[test]
fn blank_address_is_no_address() {
    for ip in ["", " ", "\t\r\n"] {
        let (actions, reached) = probe(Prober::start("8.8.8.8", 1, true, 1, 300), Some(ip), 1);
        assert!(!reached);
        assert!(checks(&actions).is_empty());
    }
}

#[test]
fn address_is_handed_on_as_it_was_reported() {
    let (actions, _) = probe(Prober::start("8.8.8.8", 1, true, 1, 300), Some(" 10.0.0.5 "), 1);
    assert_eq!(
        actions[1],
        Action::Probe {
            source: Some(" 10.0.0.5 ".to_string()),
            target: "8.8.8.8".to_string(),
            timeout_secs: 1
        }
    );
}

#[test]
fn report_that_cannot_be_read_fails_the_attempt() {
    match Prober::start("8.8.8.8", 1, true, 1, 300) {
        Turn::Next(machine, action) => {
            assert_eq!(action, Action::Observe);
            assert!(matches!(machine.step(Event::Observed(None)), Turn::Done(false)));
        }
        Turn::Done(_) => panic!("ended before it began"),
    }
}

#[test]
fn answer_of_the_wrong_kind_fails_the_attempt() {
    match Prober::start("8.8.8.8", 1, false, 1, 300) {
        Turn::Next(machine, _) => {
            assert!(matches!(machine.step(Event::Paused), Turn::Done(false)));
        }
        Turn::Done(_) => panic!("ended before it began"),
    }
    match Prober::start("8.8.8.8", 1, true, 1, 300) {
        Turn::Next(machine, _) => {
            let answer = Event::Probed(ProbeOutcome { succeeded: true });
            assert!(matches!(machine.step(answer), Turn::Done(false)));
        }
        Turn::Done(_) => panic!("ended before it began"),
    }
}

#[test]
fn outcome_is_read_from_status_output_or_attempt() {
    assert!(ProbeOutcome::from_status(true).succeeded);
    assert!(!ProbeOutcome::from_status(false).succeeded);
    assert!(ProbeOutcome::from_output("SUCCESS\r\n").succeeded);
    assert!(ProbeOutcome::from_output("  \u{feff}SUCCESS").succeeded);
    assert!(!ProbeOutcome::from_output("FAILED\r\n").succeeded);
    assert!(!ProbeOutcome::from_output("success").succeeded);
    assert!(!ProbeOutcome::from_output("").succeeded);
    assert!(ProbeOutcome::from_attempt(Ok(true)).succeeded);
    assert!(!ProbeOutcome::from_attempt(Ok(false)).succeeded);
    assert!(!ProbeOutcome::from_attempt(Err(ConfigError::Timeout)).succeeded);
    let failure = ConfigError::CommandFailed(CommandFailure::NotStarted("x".into()));
    assert!(!ProbeOutcome::from_attempt(Err(failure)).succeeded);
}

#[test]
fn named_checks_begin_the_series_they_name() {
    assert_eq!(
        ping_test("example.org", 3),
        Action::Probe { source: None, target: "example.org".to_string(), timeout_secs: 3 }
    );
    let (actions, _) = probe(ping_test_with_retries("h", 1, 3, 10), None, 0);
    assert_eq!(checks(&actions).len(), 3);
    assert_eq!(actions.iter().filter(|a| **a == Action::Observe).count(), 0);
    let (actions, _) = probe(ping_test_on_adapter("h", 1), Some("10.0.0.5"), 0);
    assert_eq!(checks(&actions).len(), 1);
    assert_eq!(actions[0], Action::Observe);
    let (actions, _) = probe(ping_test_on_adapter_with_retries("h", 1, 4, 10), Some("10.0.0.5"), 0);
    assert_eq!(checks(&actions).len(), 4);
    assert_eq!(pauses(&actions).len(), 3);
}
