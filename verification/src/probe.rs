//! Reachability checks with retries, bound to the interface under test
//! or not.

use vstd::prelude::*;
use crate::backend::{
    is_brief, Action, ActionView, Event, EventView, Turn, TurnView, LONGEST_WAIT_MILLIS,
};
use crate::text::{blank, is_blank};

verus! {

/// What a `Prober` waits for.
#[derive(Clone, Copy, Debug, PartialEq, Eq, Structural)]
pub enum ProbePhase {
    /// The interface's report, to learn the address to probe from.
    Sourcing,
    /// The outcome of the check.
    Probing,
    /// The end of the pause between two attempts.
    Pausing,
}

/// The address to probe from that the answer `event` gives: the address
/// that the interface reports, where it reports one that is not blank.
pub open spec fn source_in(event: EventView) -> Option<Seq<char>> {
    match event {
        EventView::Observed(Some(report)) => if report.ip is Some && !is_blank(
            report.ip.unwrap(),
        ) {
            report.ip
        } else {
            None
        },
        _ => None,
    }
}

/// Whether the answer `event` reports a check that succeeded.
pub open spec fn shows_reply(event: EventView) -> bool {
    event matches EventView::Probed(outcome) && outcome.succeeded
}

/// The number of attempts that a request for `attempts` gets: at least
/// one.
pub open spec fn tries_for(attempts: u32) -> nat {
    if attempts == 0 {
        1
    } else {
        attempts as nat
    }
}

/// A series of reachability checks under way.
#[derive(Debug)]
pub struct Prober {
    target: String,
    timeout_secs: u64,
    bound: bool,
    delay_ms: u64,
    tries_left: u32,
    phase: ProbePhase,
}

/// The state of a `Prober`: whom it probes and how, how many attempts
/// are left, the one in flight included, and what it waits for.
pub struct ProberView {
    pub target: Seq<char>,
    pub timeout_secs: u64,
    pub bound: bool,
    pub delay_ms: u64,
    pub tries_left: nat,
    pub phase: ProbePhase,
}

impl View for Prober {
    type V = ProberView;

    closed spec fn view(&self) -> ProberView {
        ProberView {
            target: self.target@,
            timeout_secs: self.timeout_secs,
            bound: self.bound,
            delay_ms: self.delay_ms,
            tries_left: self.tries_left as nat,
            phase: self.phase,
        }
    }
}

impl ProberView {
    /// Whether an attempt is in flight, and another one left wherever a
    /// pause is.
    pub open spec fn wf(self) -> bool {
        &&& self.tries_left >= 1
        &&& self.phase == ProbePhase::Pausing ==> self.tries_left >= 2
    }

    /// The check itself, from the address `source` where one is given.
    pub open spec fn probe(self, source: Option<Seq<char>>) -> ActionView {
        ActionView::Probe { source, target: self.target, timeout_secs: self.timeout_secs }
    }

    /// The turn that begins an attempt. A bound series first asks the
    /// interface for its address; a free one sends the check at once.
    pub open spec fn attempt(self) -> TurnView<ProberView> {
        if self.bound {
            TurnView::Next(ProberView { phase: ProbePhase::Sourcing, ..self }, ActionView::Observe)
        } else {
            TurnView::Next(ProberView { phase: ProbePhase::Probing, ..self }, self.probe(None))
        }
    }

    /// The turn after an attempt that failed: a pause where another
    /// attempt is left, else the end of the series.
    pub open spec fn give_up_or_pause(self) -> TurnView<ProberView> {
        if self.tries_left > 1 {
            TurnView::Next(
                ProberView { phase: ProbePhase::Pausing, ..self },
                ActionView::Pause(self.delay_ms),
            )
        } else {
            TurnView::Done(false)
        }
    }

    /// The turn after the answer `event`. With the interface's report:
    /// the check from the address it reports or, where it reports none,
    /// the failure of the attempt; the check is never sent without that
    /// address. With the outcome of the check: success ends the series,
    /// anything else is the failure of the attempt. After a pause: the
    /// next attempt.
    pub open spec fn step(self, event: EventView) -> TurnView<ProberView> {
        match self.phase {
            ProbePhase::Sourcing => match source_in(event) {
                Some(source) => TurnView::Next(
                    ProberView { phase: ProbePhase::Probing, ..self },
                    self.probe(Some(source)),
                ),
                None => self.give_up_or_pause(),
            },
            ProbePhase::Probing => if shows_reply(event) {
                TurnView::Done(true)
            } else {
                self.give_up_or_pause()
            },
            ProbePhase::Pausing => ProberView {
                tries_left: (self.tries_left - 1) as nat,
                ..self
            }.attempt(),
        }
    }
}

/// The first turn of a series of at most `attempts` checks of `target`,
/// and at least one, each with `timeout_secs` seconds to be answered,
/// with `delay_ms` milliseconds between two of them. A bound series
/// probes from the address of the interface under test.
pub open spec fn begin_probe(
    target: Seq<char>,
    timeout_secs: u64,
    bound: bool,
    attempts: u32,
    delay_ms: u64,
) -> TurnView<ProberView> {
    ProberView {
        target,
        timeout_secs,
        bound,
        delay_ms,
        tries_left: tries_for(attempts),
        phase: ProbePhase::Sourcing,
    }.attempt()
}

/// The address to probe from that the answer `event` gives.
pub fn take_source(event: Event) -> (r: Option<String>)
    ensures
        r.deep_view() == source_in(event@),
{
    match event {
        Event::Observed(Some(report)) => match report.ip {
            Some(ip) => if blank(ip.as_str()) {
                None
            } else {
                Some(ip)
            },
            None => None,
        },
        _ => None,
    }
}

/// Tests whether the answer `event` reports a check that succeeded.
pub fn reply_in(event: &Event) -> (r: bool)
    ensures
        r == shows_reply(event@),
{
    match event {
        Event::Probed(outcome) => outcome.succeeded,
        _ => false,
    }
}

impl Prober {
    /// An attempt is in flight for as long as the machine exists, and
    /// another one is left wherever it pauses.
    #[verifier::type_invariant]
    spec fn in_flight(self) -> bool {
        &&& self.tries_left >= 1
        &&& self.phase == ProbePhase::Pausing ==> self.tries_left >= 2
    }

    /// The check itself, from the address `source` where one is given.
    fn probe(&self, source: Option<String>) -> (r: Action)
        ensures
            r@ == self@.probe(source.deep_view()),
    {
        Action::Probe { source, target: self.target.clone(), timeout_secs: self.timeout_secs }
    }

    /// The turn that begins an attempt.
    fn attempt(self) -> (r: Turn<Prober>)
        ensures
            r@ == self@.attempt(),
    {
        proof {
            use_type_invariant(&self);
        }
        if self.bound {
            Turn::Next(
                Prober {
                    target: self.target,
                    timeout_secs: self.timeout_secs,
                    bound: self.bound,
                    delay_ms: self.delay_ms,
                    tries_left: self.tries_left,
                    phase: ProbePhase::Sourcing,
                },
                Action::Observe,
            )
        } else {
            let action = self.probe(None);
            Turn::Next(
                Prober {
                    target: self.target,
                    timeout_secs: self.timeout_secs,
                    bound: self.bound,
                    delay_ms: self.delay_ms,
                    tries_left: self.tries_left,
                    phase: ProbePhase::Probing,
                },
                action,
            )
        }
    }

    /// The turn after an attempt that failed.
    fn give_up_or_pause(self) -> (r: Turn<Prober>)
        ensures
            r@ == self@.give_up_or_pause(),
    {
        if self.tries_left > 1 {
            let delay = self.delay_ms;
            Turn::Next(
                Prober {
                    target: self.target,
                    timeout_secs: self.timeout_secs,
                    bound: self.bound,
                    delay_ms: self.delay_ms,
                    tries_left: self.tries_left,
                    phase: ProbePhase::Pausing,
                },
                Action::Pause(delay),
            )
        } else {
            Turn::Done(false)
        }
    }

    /// Begins a series of at most `attempts` checks of `target`, and at
    /// least one.
    pub fn start(target: &str, timeout_secs: u64, bound: bool, attempts: u32, delay_ms: u64) -> (r:
        Turn<Prober>)
        ensures
            r@ == begin_probe(target@, timeout_secs, bound, attempts, delay_ms),
    {
        let tries: u32 = if attempts == 0 {
            1
        } else {
            attempts
        };
        Prober {
            target: target.to_owned(),
            timeout_secs,
            bound,
            delay_ms,
            tries_left: tries,
            phase: ProbePhase::Sourcing,
        }.attempt()
    }

    /// Takes the answer to what is in flight and says what comes next.
    pub fn step(self, event: Event) -> (r: Turn<Prober>)
        ensures
            self@.wf(),
            r@ == self@.step(event@),
    {
        proof {
            use_type_invariant(&self);
        }
        match self.phase {
            ProbePhase::Sourcing => match take_source(event) {
                Some(source) => {
                    let action = self.probe(Some(source));
                    Turn::Next(
                        Prober {
                            target: self.target,
                            timeout_secs: self.timeout_secs,
                            bound: self.bound,
                            delay_ms: self.delay_ms,
                            tries_left: self.tries_left,
                            phase: ProbePhase::Probing,
                        },
                        action,
                    )
                },
                None => self.give_up_or_pause(),
            },
            ProbePhase::Probing => if reply_in(&event) {
                Turn::Done(true)
            } else {
                self.give_up_or_pause()
            },
            ProbePhase::Pausing => Prober {
                target: self.target,
                timeout_secs: self.timeout_secs,
                bound: self.bound,
                delay_ms: self.delay_ms,
                tries_left: self.tries_left - 1,
                phase: ProbePhase::Sourcing,
            }.attempt(),
        }
    }
}

/// A check bound to the interface under test is sent from the address
/// that the interface has just reported, and that address is not blank:
/// where the interface reports none, no check is sent.
pub proof fn law_bound_probe_has_source(machine: ProberView, event: EventView)
    requires
        machine.bound,
    ensures
        machine.attempt() matches TurnView::Next(_, action) && action == ActionView::Observe,
        machine.step(event) matches TurnView::Next(_, ActionView::Probe { source, .. })
            ==> source == source_in(event) && source is Some && !is_blank(source.unwrap()),
        machine.step(event) matches TurnView::Next(next, _) ==> next.bound,
{
}

impl ProberView {
    /// The number of reports, checks and pauses that are still to be
    /// answered at most.
    pub open spec fn steps_left(self) -> nat {
        match self.phase {
            ProbePhase::Sourcing => 3 * self.tries_left,
            ProbePhase::Probing => (3 * self.tries_left - 1) as nat,
            ProbePhase::Pausing => (3 * self.tries_left - 2) as nat,
        }
    }
}

/// A series of `n` attempts asks for no more than `3 n` things: a
/// report, a check and a pause for each attempt.
pub proof fn law_probe_is_short(
    target: Seq<char>,
    timeout_secs: u64,
    bound: bool,
    attempts: u32,
    delay_ms: u64,
)
    ensures
        begin_probe(target, timeout_secs, bound, attempts, delay_ms) matches TurnView::Next(
            first,
            _,
        ) && first.wf() && first.steps_left() <= 3 * tries_for(attempts),
{
}

/// A series of checks ends: every answer leaves less to be answered.
pub proof fn law_probe_ends(machine: ProberView, event: EventView)
    requires
        machine.wf(),
    ensures
        machine.step(event) matches TurnView::Next(next, _) ==> next.wf() && next.steps_left()
            < machine.steps_left(),
{
}

impl ProberView {
    /// Whether the checks and the pauses of the series are brief.
    pub open spec fn timed(self) -> bool {
        is_brief(ActionView::Pause(self.delay_ms)) && is_brief(self.probe(None))
    }
}

/// A series of checks that wait briefly for their replies, with brief
/// pauses between them, keeps no one waiting for long.
pub proof fn law_probe_is_brief(
    target: Seq<char>,
    timeout_secs: u64,
    bound: bool,
    attempts: u32,
    delay_ms: u64,
)
    requires
        delay_ms <= LONGEST_WAIT_MILLIS,
        timeout_secs * 1000 <= LONGEST_WAIT_MILLIS,
    ensures
        begin_probe(target, timeout_secs, bound, attempts, delay_ms) matches TurnView::Next(
            first,
            action,
        ) && first.timed() && is_brief(action),
{
}

/// A series of checks that keeps no one waiting for long goes on that
/// way.
pub proof fn law_probe_stays_brief(machine: ProberView, event: EventView)
    requires
        machine.timed(),
    ensures
        machine.step(event) matches TurnView::Next(next, action) ==> next.timed() && is_brief(
            action,
        ),
{
}

} // verus!
