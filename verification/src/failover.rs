//! Choosing between the two profiles of an interface: keep the one that
//! is believed active where it works, switch to the other where only that
//! one works, and go back where neither does.

use vstd::prelude::*;
use vstd::string::StringExecFns;
use crate::apply::{
    begin_apply, law_apply_ends, law_apply_is_brief, law_apply_is_short, law_apply_stays_brief,
    Applier, ApplierView, ApplyTurn, ApplyTurnView,
};
use crate::backend::{is_brief, Action, ActionView, Event, EventView, Turn, TurnView};
use crate::config::{side_label, ActiveSide, NetworkConfig, NetworkConfigView};
use crate::error::{ConfigError, ConfigErrorView};
use crate::probe::source_in;
use crate::readiness::{
    begin_wait, full_wait, law_wait_ends, law_wait_is_brief, law_wait_is_short,
    law_wait_stays_brief, Waiter, WaiterView,
};
use crate::text::is_blank;
use crate::verify::{
    begin_verify, law_verify_begins_sound, law_verify_ends, law_verify_is_brief,
    law_verify_is_short, law_verify_probes_from_interface, law_verify_stays_brief,
    law_verify_stays_sound, Verifier, VerifierView,
};

verus! {

/// How a decision ended.
#[derive(Clone, Copy, Debug, PartialEq, Eq, Structural)]
pub enum SwitchOutcome {
    /// The profile that was believed active works and stays.
    Stay,
    /// Only the other profile works; it is the active one now.
    Switched,
    /// Neither profile works; the one that was believed active is back
    /// on the interface.
    BothFailed,
}

/// What a decision reports.
#[derive(Clone, Debug, PartialEq, Eq)]
pub struct AutoSwitchResult {
    /// The decision in words.
    pub message: String,
    /// The label of the side that is active from now on.
    pub active_network: String,
    /// `"stay"`, `"switched"` or `"both_failed"`.
    pub result: String,
    /// The target whose reachability decided, where one did.
    pub active_ping_target: Option<String>,
}

/// An `AutoSwitchResult` with its texts as sequences of characters.
pub struct AutoSwitchResultView {
    pub message: Seq<char>,
    pub active_network: Seq<char>,
    pub result: Seq<char>,
    pub active_ping_target: Option<Seq<char>>,
}

impl View for AutoSwitchResult {
    type V = AutoSwitchResultView;

    open spec fn view(&self) -> AutoSwitchResultView {
        AutoSwitchResultView {
            message: self.message@,
            active_network: self.active_network@,
            result: self.result@,
            active_ping_target: self.active_ping_target.deep_view(),
        }
    }
}

/// The word for an outcome.
pub open spec fn outcome_label(outcome: SwitchOutcome) -> Seq<char> {
    match outcome {
        SwitchOutcome::Stay => "stay"@,
        SwitchOutcome::Switched => "switched"@,
        SwitchOutcome::BothFailed => "both_failed"@,
    }
}

/// The name of a side in messages.
pub open spec fn side_name(side: ActiveSide) -> Seq<char> {
    match side {
        ActiveSide::Network1 => "网络1"@,
        ActiveSide::Network2 => "网络2"@,
    }
}

/// The report of a decision that keeps the side `active`, whose target is
/// `target`.
pub open spec fn stay_report(active: ActiveSide, target: Seq<char>) -> AutoSwitchResultView {
    AutoSwitchResultView {
        message: "保持"@ + side_name(active) + " (连接正常)"@,
        active_network: side_label(active),
        result: outcome_label(SwitchOutcome::Stay),
        active_ping_target: Some(target),
    }
}

/// The report of a decision that leaves the side `active` for the other,
/// whose target is `target`.
pub open spec fn switched_report(active: ActiveSide, target: Seq<char>) -> AutoSwitchResultView {
    AutoSwitchResultView {
        message: "已切换到"@ + side_name(active.spec_other()) + " (原"@ + side_name(active)
            + "不可用)"@,
        active_network: side_label(active.spec_other()),
        result: outcome_label(SwitchOutcome::Switched),
        active_ping_target: Some(target),
    }
}

/// The report of a decision that found neither side usable and went back
/// to the side `active`.
pub open spec fn both_failed_report(active: ActiveSide) -> AutoSwitchResultView {
    AutoSwitchResultView {
        message: "异常："@ + side_name(active) + " 与 "@ + side_name(active.spec_other())
            + " 都无法ping通，已回退到"@ + side_name(active),
        active_network: side_label(active),
        result: outcome_label(SwitchOutcome::BothFailed),
        active_ping_target: None,
    }
}

/// Which profile a decision is busy with.
#[derive(Clone, Copy, Debug, PartialEq, Eq, Structural)]
pub enum Round {
    /// The profile that is believed active.
    Current,
    /// The other profile.
    Alternate,
    /// The profile that was believed active, put back after both failed.
    Rollback,
}

impl Round {
    /// The number of rounds that can still follow this one.
    pub open spec fn left(self) -> nat {
        match self {
            Round::Current => 2,
            Round::Alternate => 1,
            Round::Rollback => 0,
        }
    }
}

/// What a decision was given: the two profiles, and the side that is
/// believed active.
#[derive(Debug)]
pub struct Sides {
    pub network1: NetworkConfig,
    pub network2: NetworkConfig,
    pub active: ActiveSide,
}

/// `Sides` with its texts as sequences of characters.
pub struct SidesView {
    pub network1: NetworkConfigView,
    pub network2: NetworkConfigView,
    pub active: ActiveSide,
}

impl View for Sides {
    type V = SidesView;

    open spec fn view(&self) -> SidesView {
        SidesView { network1: self.network1@, network2: self.network2@, active: self.active }
    }
}

impl SidesView {
    /// The profile of a side.
    pub open spec fn config(self, side: ActiveSide) -> NetworkConfigView {
        match side {
            ActiveSide::Network1 => self.network1,
            ActiveSide::Network2 => self.network2,
        }
    }

    /// The side that the round `round` is busy with: the other side in
    /// the round of the alternate, else the side believed active.
    pub open spec fn side_in(self, round: Round) -> ActiveSide {
        match round {
            Round::Alternate => self.active.spec_other(),
            _ => self.active,
        }
    }

    /// The profile that the round `round` is busy with.
    pub open spec fn subject(self, round: Round) -> NetworkConfigView {
        self.config(self.side_in(round))
    }
}

/// What a decision is at.
#[derive(Debug)]
pub enum Phase {
    /// It waits to learn whether the interface exists.
    Resolving,
    /// It puts a profile on the interface.
    Applying(Applier),
    /// It waits for the interface to take the profile up.
    Waiting(Waiter),
    /// It verifies that the profile is usable.
    Verifying(Verifier),
}

/// The state of a `Phase`.
pub enum PhaseView {
    Resolving,
    Applying(ApplierView),
    Waiting(WaiterView),
    Verifying(VerifierView),
}

impl View for Phase {
    type V = PhaseView;

    open spec fn view(&self) -> PhaseView {
        match self {
            Phase::Resolving => PhaseView::Resolving,
            Phase::Applying(applier) => PhaseView::Applying(applier@),
            Phase::Waiting(waiter) => PhaseView::Waiting(waiter@),
            Phase::Verifying(verifier) => PhaseView::Verifying(verifier@),
        }
    }
}

/// A decision under way.
#[derive(Debug)]
pub struct Failover {
    sides: Sides,
    round: Round,
    phase: Phase,
}

/// The state of a `Failover`.
pub struct FailoverView {
    pub sides: SidesView,
    pub round: Round,
    pub phase: PhaseView,
}

impl View for Failover {
    type V = FailoverView;

    closed spec fn view(&self) -> FailoverView {
        FailoverView { sides: self.sides@, round: self.round, phase: self.phase@ }
    }
}

/// What a `Failover` says after each answer: either the next thing to do,
/// with the machine to hand the answer to, or how the decision ended.
#[derive(Debug)]
pub enum DecideTurn {
    Next(Failover, Action),
    Done(Result<AutoSwitchResult, ConfigError>),
}

/// A `DecideTurn` with its texts as sequences of characters.
pub enum DecideTurnView {
    Next(FailoverView, ActionView),
    Done(Result<AutoSwitchResultView, ConfigErrorView>),
}

/// The view of the result of a decision.
pub open spec fn decision_view(r: Result<AutoSwitchResult, ConfigError>) -> Result<
    AutoSwitchResultView,
    ConfigErrorView,
> {
    match r {
        Ok(report) => Ok(report@),
        Err(e) => Err(e@),
    }
}

impl View for DecideTurn {
    type V = DecideTurnView;

    open spec fn view(&self) -> DecideTurnView {
        match self {
            DecideTurn::Next(machine, action) => DecideTurnView::Next(machine@, action@),
            DecideTurn::Done(result) => DecideTurnView::Done(decision_view(*result)),
        }
    }
}

impl FailoverView {
    /// Whether the machine that the decision runs is a sound one.
    pub open spec fn wf(self) -> bool {
        match self.phase {
            PhaseView::Resolving => self.round == Round::Current,
            PhaseView::Applying(applier) => applier.wf(),
            PhaseView::Waiting(waiter) => waiter.wf(),
            PhaseView::Verifying(verifier) => verifier.wf(),
        }
    }

    /// The turn that a turn of the change of configuration makes. In the
    /// rounds of the two profiles a change that fails ends the decision
    /// with its error, and one that succeeds is followed by the wait for
    /// the interface. The change that goes back to the first profile ends
    /// the decision however it went.
    pub open spec fn applying(sides: SidesView, round: Round, turn: ApplyTurnView) -> DecideTurnView
        decreases round.left(), 2nat,
    {
        match turn {
            ApplyTurnView::Next(applier, action) => DecideTurnView::Next(
                FailoverView { sides, round, phase: PhaseView::Applying(applier) },
                action,
            ),
            ApplyTurnView::Done(result) => if round == Round::Rollback {
                DecideTurnView::Done(Ok(both_failed_report(sides.active)))
            } else {
                match result {
                    Err(e) => DecideTurnView::Done(Err(e)),
                    Ok(_) => Self::waiting(
                        sides,
                        round,
                        begin_wait(sides.subject(round), full_wait(sides.subject(round))),
                    ),
                }
            },
        }
    }

    /// The turn that a turn of the wait makes: however the wait ends, the
    /// verification follows.
    pub open spec fn waiting(sides: SidesView, round: Round, turn: TurnView<WaiterView>)
        -> DecideTurnView
        decreases round.left(), 1nat,
    {
        match turn {
            TurnView::Next(waiter, action) => DecideTurnView::Next(
                FailoverView { sides, round, phase: PhaseView::Waiting(waiter) },
                action,
            ),
            TurnView::Done(_) => Self::verifying(sides, round, begin_verify(sides.subject(round))),
        }
    }

    /// The turn that a turn of the verification makes. A usable profile
    /// ends the decision: the first one stays, the other one is switched
    /// to. After a first profile that is not usable the other is put
    /// on the interface; after another that is not usable either, the
    /// first is put back.
    pub open spec fn verifying(sides: SidesView, round: Round, turn: TurnView<VerifierView>)
        -> DecideTurnView
        decreases round.left(), 0nat,
    {
        match turn {
            TurnView::Next(verifier, action) => DecideTurnView::Next(
                FailoverView { sides, round, phase: PhaseView::Verifying(verifier) },
                action,
            ),
            TurnView::Done(usable) => match round {
                Round::Current => if usable {
                    DecideTurnView::Done(
                        Ok(stay_report(sides.active, sides.subject(round).ping_target)),
                    )
                } else {
                    Self::applying(
                        sides,
                        Round::Alternate,
                        begin_apply(sides.subject(Round::Alternate)),
                    )
                },
                Round::Alternate => if usable {
                    DecideTurnView::Done(
                        Ok(switched_report(sides.active, sides.subject(round).ping_target)),
                    )
                } else {
                    Self::applying(
                        sides,
                        Round::Rollback,
                        begin_apply(sides.subject(Round::Rollback)),
                    )
                },
                Round::Rollback => DecideTurnView::Done(Ok(both_failed_report(sides.active))),
            },
        }
    }

    /// The turn after the answer `event`. A decision about an interface
    /// that does not exist ends with that error, and nothing is put on
    /// anything.
    pub open spec fn step(self, event: EventView) -> DecideTurnView {
        match self.phase {
            PhaseView::Resolving => if event == EventView::Resolved(true) {
                Self::applying(self.sides, self.round, begin_apply(self.sides.subject(self.round)))
            } else {
                DecideTurnView::Done(Err(ConfigErrorView::InterfaceNotFound))
            },
            PhaseView::Applying(applier) => Self::applying(
                self.sides,
                self.round,
                applier.step(event),
            ),
            PhaseView::Waiting(waiter) => Self::waiting(self.sides, self.round, waiter.step(event)),
            PhaseView::Verifying(verifier) => Self::verifying(
                self.sides,
                self.round,
                verifier.step(event),
            ),
        }
    }
}

/// The first turn of a decision: to find out whether the interface
/// exists.
pub open spec fn begin_decide(sides: SidesView) -> DecideTurnView {
    DecideTurnView::Next(
        FailoverView { sides, round: Round::Current, phase: PhaseView::Resolving },
        ActionView::Resolve,
    )
}

/// The name of a side in messages.
pub fn name_of(side: ActiveSide) -> (r: &'static str)
    ensures
        r@ == side_name(side),
{
    match side {
        ActiveSide::Network1 => "网络1",
        ActiveSide::Network2 => "网络2",
    }
}

impl SwitchOutcome {
    /// The word for the outcome.
    pub fn label(self) -> (r: &'static str)
        ensures
            r@ == outcome_label(self),
    {
        match self {
            SwitchOutcome::Stay => "stay",
            SwitchOutcome::Switched => "switched",
            SwitchOutcome::BothFailed => "both_failed",
        }
    }
}

impl AutoSwitchResult {
    /// The report of a decision that keeps the side `active`.
    pub fn stay(active: ActiveSide, target: &str) -> (r: AutoSwitchResult)
        ensures
            r@ == stay_report(active, target@),
    {
        let mut message = "保持".to_owned();
        message.append(name_of(active));
        message.append(" (连接正常)");
        AutoSwitchResult {
            message,
            active_network: active.label().to_owned(),
            result: SwitchOutcome::Stay.label().to_owned(),
            active_ping_target: Some(target.to_owned()),
        }
    }

    /// The report of a decision that leaves the side `active` for the
    /// other.
    pub fn switched(active: ActiveSide, target: &str) -> (r: AutoSwitchResult)
        ensures
            r@ == switched_report(active, target@),
    {
        let mut message = "已切换到".to_owned();
        message.append(name_of(active.other()));
        message.append(" (原");
        message.append(name_of(active));
        message.append("不可用)");
        AutoSwitchResult {
            message,
            active_network: active.other().label().to_owned(),
            result: SwitchOutcome::Switched.label().to_owned(),
            active_ping_target: Some(target.to_owned()),
        }
    }

    /// The report of a decision that found neither side usable.
    pub fn both_failed(active: ActiveSide) -> (r: AutoSwitchResult)
        ensures
            r@ == both_failed_report(active),
    {
        let mut message = "异常：".to_owned();
        message.append(name_of(active));
        message.append(" 与 ");
        message.append(name_of(active.other()));
        message.append(" 都无法ping通，已回退到");
        message.append(name_of(active));
        AutoSwitchResult {
            message,
            active_network: active.label().to_owned(),
            result: SwitchOutcome::BothFailed.label().to_owned(),
            active_ping_target: None,
        }
    }
}

impl Sides {
    /// The profile that the round `round` is busy with.
    pub fn subject(&self, round: Round) -> (r: &NetworkConfig)
        ensures
            r@ == self@.subject(round),
    {
        let side = match round {
            Round::Alternate => self.active.other(),
            _ => self.active,
        };
        match side {
            ActiveSide::Network1 => &self.network1,
            ActiveSide::Network2 => &self.network2,
        }
    }
}

impl Failover {
    /// The turn that a turn of the change of configuration makes.
    fn applying(sides: Sides, round: Round, turn: ApplyTurn) -> (r: DecideTurn)
        ensures
            r@ == FailoverView::applying(sides@, round, turn@),
        decreases round.left(), 2nat,
    {
        match turn {
            ApplyTurn::Next(applier, action) => DecideTurn::Next(
                Failover { sides, round, phase: Phase::Applying(applier) },
                action,
            ),
            ApplyTurn::Done(result) => {
                if round == Round::Rollback {
                    return DecideTurn::Done(Ok(AutoSwitchResult::both_failed(sides.active)));
                }
                match result {
                    Err(e) => DecideTurn::Done(Err(e)),
                    Ok(_) => {
                        let subject = sides.subject(round);
                        let first = Waiter::start(subject, Waiter::full_wait(subject));
                        Failover::waiting(sides, round, first)
                    },
                }
            },
        }
    }

    /// The turn that a turn of the wait makes.
    fn waiting(sides: Sides, round: Round, turn: Turn<Waiter>) -> (r: DecideTurn)
        ensures
            r@ == FailoverView::waiting(sides@, round, turn@),
        decreases round.left(), 1nat,
    {
        match turn {
            Turn::Next(waiter, action) => DecideTurn::Next(
                Failover { sides, round, phase: Phase::Waiting(waiter) },
                action,
            ),
            Turn::Done(_) => {
                let first = Verifier::start(sides.subject(round));
                Failover::verifying(sides, round, first)
            },
        }
    }

    /// The turn that a turn of the verification makes.
    fn verifying(sides: Sides, round: Round, turn: Turn<Verifier>) -> (r: DecideTurn)
        ensures
            r@ == FailoverView::verifying(sides@, round, turn@),
        decreases round.left(), 0nat,
    {
        match turn {
            Turn::Next(verifier, action) => DecideTurn::Next(
                Failover { sides, round, phase: Phase::Verifying(verifier) },
                action,
            ),
            Turn::Done(usable) => match round {
                Round::Current => if usable {
                    let report = AutoSwitchResult::stay(
                        sides.active,
                        sides.subject(round).ping_target.as_str(),
                    );
                    DecideTurn::Done(Ok(report))
                } else {
                    let first = Applier::start(sides.subject(Round::Alternate));
                    Failover::applying(sides, Round::Alternate, first)
                },
                Round::Alternate => if usable {
                    let report = AutoSwitchResult::switched(
                        sides.active,
                        sides.subject(round).ping_target.as_str(),
                    );
                    DecideTurn::Done(Ok(report))
                } else {
                    let first = Applier::start(sides.subject(Round::Rollback));
                    Failover::applying(sides, Round::Rollback, first)
                },
                Round::Rollback => DecideTurn::Done(
                    Ok(AutoSwitchResult::both_failed(sides.active)),
                ),
            },
        }
    }

    /// Begins a decision between `network1` and `network2` for an
    /// interface on which the side `active` is believed to be in effect.
    pub fn start(active: ActiveSide, network1: NetworkConfig, network2: NetworkConfig) -> (r:
        DecideTurn)
        ensures
            r@ == begin_decide(SidesView { network1: network1@, network2: network2@, active }),
    {
        DecideTurn::Next(
            Failover {
                sides: Sides { network1, network2, active },
                round: Round::Current,
                phase: Phase::Resolving,
            },
            Action::Resolve,
        )
    }

    /// Takes the answer to what is in flight and says what comes next.
    pub fn step(self, event: Event) -> (r: DecideTurn)
        ensures
            self@.wf(),
            r@ == self@.step(event@),
    {
        proof {
            use_type_invariant(&self);
        }
        let Failover { sides, round, phase } = self;
        match phase {
            Phase::Resolving => {
                let found = match event {
                    Event::Resolved(found) => found,
                    _ => false,
                };
                if found {
                    let first = Applier::start(sides.subject(round));
                    Failover::applying(sides, round, first)
                } else {
                    DecideTurn::Done(Err(ConfigError::InterfaceNotFound))
                }
            },
            Phase::Applying(applier) => {
                let turn = applier.step(event);
                Failover::applying(sides, round, turn)
            },
            Phase::Waiting(waiter) => {
                let turn = waiter.step(event);
                Failover::waiting(sides, round, turn)
            },
            Phase::Verifying(verifier) => {
                let turn = verifier.step(event);
                Failover::verifying(sides, round, turn)
            },
        }
    }

    /// A decision waits to learn of the interface only in its first
    /// round.
    #[verifier::type_invariant]
    spec fn resolves_first(self) -> bool {
        self.phase is Resolving ==> self.round == Round::Current
    }
}

/// Whether `action`, where it is a check, is sent from the address that
/// the answer `event` reports, and that address is not blank.
spec fn probe_is_sourced(action: ActionView, event: EventView) -> bool {
    action matches ActionView::Probe { source, .. } ==> source == source_in(event) && source
        is Some && !is_blank(source.unwrap())
}

/// Whether the turn `out` is one that may follow the answer `event` in
/// the round `round` of a decision between `sides`: the decision goes on
/// soundly and between the same sides, it has not gone back a round, and
/// what it asks for, where that is a check, is sent from the address
/// that the answer reports.
spec fn may_follow(sides: SidesView, round: Round, event: EventView, out: DecideTurnView)
    -> bool {
    out matches DecideTurnView::Next(next, action) ==> {
        &&& next.wf()
        &&& next.sides == sides
        &&& next.round.left() <= round.left()
        &&& probe_is_sourced(action, event)
    }
}

/// Whether the turn `out`, where it begins a change of configuration,
/// begins it in a later round than `round`.
spec fn applies_later(round: Round, out: DecideTurnView) -> bool {
    out matches DecideTurnView::Next(next, _) ==> (next.phase is Applying ==> next.round.left()
        < round.left())
}

/// What holds of the turn that a turn of the change of configuration
/// makes.
proof fn lemma_applying(sides: SidesView, round: Round, turn: ApplyTurnView, event: EventView)
    requires
        turn matches ApplyTurnView::Next(applier, action) ==> applier.wf() && !(action is Probe),
    ensures
        may_follow(sides, round, event, FailoverView::applying(sides, round, turn)),
        turn is Done ==> applies_later(round, FailoverView::applying(sides, round, turn)),
    decreases round.left(), 2nat,
{
    if turn is Done && round != Round::Rollback && turn->Done_0 is Ok {
        lemma_waiting(
            sides,
            round,
            begin_wait(sides.subject(round), full_wait(sides.subject(round))),
            event,
        );
    }
}

/// What holds of the turn that a turn of the wait makes.
proof fn lemma_waiting(
    sides: SidesView,
    round: Round,
    turn: TurnView<WaiterView>,
    event: EventView,
)
    requires
        turn matches TurnView::Next(waiter, action) ==> waiter.wf() && !(action is Probe),
    ensures
        may_follow(sides, round, event, FailoverView::waiting(sides, round, turn)),
        applies_later(round, FailoverView::waiting(sides, round, turn)),
    decreases round.left(), 1nat,
{
    if turn is Done {
        law_verify_begins_sound(sides.subject(round));
        lemma_verifying(sides, round, begin_verify(sides.subject(round)), event);
    }
}

/// What holds of the turn that a turn of the verification makes.
proof fn lemma_verifying(
    sides: SidesView,
    round: Round,
    turn: TurnView<VerifierView>,
    event: EventView,
)
    requires
        turn matches TurnView::Next(verifier, action) ==> verifier.wf() && probe_is_sourced(
            action,
            event,
        ),
    ensures
        may_follow(sides, round, event, FailoverView::verifying(sides, round, turn)),
        applies_later(round, FailoverView::verifying(sides, round, turn)),
    decreases round.left(), 0nat,
{
    if turn matches TurnView::Done(usable) && !usable {
        if round == Round::Current {
            lemma_applying(
                sides,
                Round::Alternate,
                begin_apply(sides.subject(Round::Alternate)),
                event,
            );
        } else if round == Round::Alternate {
            lemma_applying(
                sides,
                Round::Rollback,
                begin_apply(sides.subject(Round::Rollback)),
                event,
            );
        }
    }
}

/// What holds of every turn of a sound decision.
proof fn lemma_step(machine: FailoverView, event: EventView)
    requires
        machine.wf(),
    ensures
        may_follow(machine.sides, machine.round, event, machine.step(event)),
        !(machine.phase is Applying) && !(machine.phase is Resolving) ==> applies_later(
            machine.round,
            machine.step(event),
        ),
{
    match machine.phase {
        PhaseView::Resolving => {
            if event == EventView::Resolved(true) {
                lemma_applying(
                    machine.sides,
                    machine.round,
                    begin_apply(machine.sides.subject(machine.round)),
                    event,
                );
            }
        },
        PhaseView::Applying(applier) => {
            lemma_applying(machine.sides, machine.round, applier.step(event), event);
        },
        PhaseView::Waiting(waiter) => {
            lemma_waiting(machine.sides, machine.round, waiter.step(event), event);
        },
        PhaseView::Verifying(verifier) => {
            law_verify_stays_sound(verifier, event);
            law_verify_probes_from_interface(verifier, event);
            lemma_verifying(machine.sides, machine.round, verifier.step(event), event);
        },
    }
}

/// A decision that begins is a sound one, and a sound decision stays
/// one, between the same two profiles.
pub proof fn law_decide_stays_sound(sides: SidesView, machine: FailoverView, event: EventView)
    requires
        machine.wf(),
    ensures
        begin_decide(sides) matches DecideTurnView::Next(first, _) && first.wf(),
        machine.step(event) matches DecideTurnView::Next(next, _) ==> next.wf() && next.sides
            == machine.sides,
{
    lemma_step(machine, event);
}

/// Every check that a decision sends is sent from the address that the
/// interface has just reported, and that address is not blank: on an
/// interface that reports no address the check counts as failed and is
/// not sent, neither from that interface nor from any other.
pub proof fn law_decide_probes_from_interface(machine: FailoverView, event: EventView)
    requires
        machine.wf(),
    ensures
        machine.step(event) matches DecideTurnView::Next(_, ActionView::Probe { source, .. })
            ==> source == source_in(event) && source is Some && !is_blank(source.unwrap()),
{
    lemma_step(machine, event);
}

/// A decision never goes back a round, and after the first it begins a
/// change of configuration only as it enters a new round. There are
/// three rounds, so a decision changes the configuration of the
/// interface three times at most.
pub proof fn law_one_change_per_round(machine: FailoverView, event: EventView)
    requires
        machine.wf(),
    ensures
        machine.step(event) matches DecideTurnView::Next(next, _) ==> {
            &&& next.round.left() <= machine.round.left()
            &&& (next.phase is Applying && !(machine.phase is Applying) ==> machine.phase
                is Resolving || next.round.left() < machine.round.left())
        },
{
    lemma_step(machine, event);
}

/// A decision about an interface that does not resolve ends with
/// `InterfaceNotFound` before anything is put on anything.
pub proof fn law_unresolved_ends(sides: SidesView, event: EventView)
    requires
        event != EventView::Resolved(true),
    ensures
        begin_decide(sides) matches DecideTurnView::Next(first, action) && action
            == ActionView::Resolve && first.step(event) == DecideTurnView::Done(
            Err(ConfigErrorView::InterfaceNotFound),
        ),
{
}

/// Where the first profile proves usable the decision ends at once: it
/// stays with that profile, reports its target, and the other profile is
/// never put on the interface.
pub proof fn law_usable_current_stays(
    machine: FailoverView,
    verifier: VerifierView,
    event: EventView,
)
    requires
        machine.round == Round::Current,
        machine.phase == PhaseView::Verifying(verifier),
        verifier.step(event) == TurnView::<VerifierView>::Done(true),
    ensures
        machine.step(event) == DecideTurnView::Done(
            Ok(
                stay_report(
                    machine.sides.active,
                    machine.sides.config(machine.sides.active).ping_target,
                ),
            ),
        ),
{
}

/// Where the first profile is not usable and the other proves usable,
/// the decision switches: the other side is the active one from then on,
/// and its target is reported.
pub proof fn law_usable_alternate_switches(
    machine: FailoverView,
    verifier: VerifierView,
    event: EventView,
)
    requires
        machine.round == Round::Alternate,
        machine.phase == PhaseView::Verifying(verifier),
        verifier.step(event) == TurnView::<VerifierView>::Done(true),
    ensures
        machine.step(event) == DecideTurnView::Done(
            Ok(
                switched_report(
                    machine.sides.active,
                    machine.sides.config(machine.sides.active.spec_other()).ping_target,
                ),
            ),
        ),
        switched_report(
            machine.sides.active,
            machine.sides.config(machine.sides.active.spec_other()).ping_target,
        ).active_network == side_label(machine.sides.active.spec_other()),
{
}

/// A change of configuration that fails in one of the first two rounds
/// ends the decision with its error; the one that goes back to the first
/// profile ends it with the report that both failed, however it went.
pub proof fn law_failed_change_ends(machine: FailoverView, applier: ApplierView, event: EventView)
    requires
        machine.phase == PhaseView::Applying(applier),
        applier.step(event) is Done,
    ensures
        machine.round != Round::Rollback ==> (applier.step(event) matches ApplyTurnView::Done(
            Err(e),
        ) ==> machine.step(event) == DecideTurnView::Done(Err(e))),
        machine.round == Round::Rollback ==> machine.step(event) == DecideTurnView::Done(
            Ok(both_failed_report(machine.sides.active)),
        ),
        both_failed_report(machine.sides.active).active_ping_target is None,
{
}

/// The most that one round of a decision asks for, and one more: a
/// change of at most 7 steps, a wait of at most 16 and a verification of
/// at most 14, with one to spare between each two of them.
pub open spec fn round_steps() -> nat {
    40
}

impl FailoverView {
    /// The number of things that are still to be answered at most: what
    /// is left of the phase under way, what the phases that follow it in
    /// its round may ask for, and what the rounds that follow may ask
    /// for.
    pub open spec fn steps_left(self) -> nat {
        self.round.left() * round_steps() + match self.phase {
            PhaseView::Resolving => round_steps(),
            PhaseView::Applying(applier) => applier.steps_left() + 32,
            PhaseView::Waiting(waiter) => waiter.steps_left() + 15,
            PhaseView::Verifying(verifier) => verifier.steps_left(),
        }
    }
}

/// How much is left after the turn that a turn of the change of
/// configuration makes.
proof fn lemma_applying_left(sides: SidesView, round: Round, turn: ApplyTurnView)
    requires
        turn matches ApplyTurnView::Next(applier, _) ==> applier.wf(),
    ensures
        FailoverView::applying(sides, round, turn) matches DecideTurnView::Next(next, _)
            ==> next.steps_left() <= round.left() * round_steps() + match turn {
            ApplyTurnView::Next(applier, _) => applier.steps_left() + 32,
            ApplyTurnView::Done(_) => 31,
        },
    decreases round.left(), 2nat,
{
    if turn is Done && round != Round::Rollback && turn->Done_0 is Ok {
        let subject = sides.subject(round);
        law_wait_is_short(subject, full_wait(subject));
        lemma_waiting_left(sides, round, begin_wait(subject, full_wait(subject)));
    }
}

/// How much is left after the turn that a turn of the wait makes.
proof fn lemma_waiting_left(sides: SidesView, round: Round, turn: TurnView<WaiterView>)
    requires
        turn matches TurnView::Next(waiter, _) ==> waiter.wf(),
    ensures
        FailoverView::waiting(sides, round, turn) matches DecideTurnView::Next(next, _)
            ==> next.steps_left() <= round.left() * round_steps() + match turn {
            TurnView::Next(waiter, _) => waiter.steps_left() + 15,
            TurnView::Done(_) => 14,
        },
    decreases round.left(), 1nat,
{
    if turn is Done {
        law_verify_is_short(sides.subject(round));
        lemma_verifying_left(sides, round, begin_verify(sides.subject(round)));
    }
}

/// How much is left after the turn that a turn of the verification
/// makes.
proof fn lemma_verifying_left(sides: SidesView, round: Round, turn: TurnView<VerifierView>)
    requires
        turn matches TurnView::Next(verifier, _) ==> verifier.wf(),
    ensures
        FailoverView::verifying(sides, round, turn) matches DecideTurnView::Next(next, _) ==> (
        match turn {
            TurnView::Next(verifier, _) => next.steps_left() <= round.left() * round_steps()
                + verifier.steps_left(),
            TurnView::Done(_) => round.left() >= 1 && next.steps_left() <= (round.left() - 1)
                * round_steps() + 39,
        }),
    decreases round.left(), 0nat,
{
    if turn matches TurnView::Done(usable) && !usable {
        if round == Round::Current {
            let subject = sides.subject(Round::Alternate);
            law_apply_is_short(subject);
            lemma_applying_left(sides, Round::Alternate, begin_apply(subject));
        } else if round == Round::Alternate {
            let subject = sides.subject(Round::Rollback);
            law_apply_is_short(subject);
            lemma_applying_left(sides, Round::Rollback, begin_apply(subject));
        }
    }
}

/// A decision ends: every answer leaves less to be answered, and a
/// decision asks for no more than 120 things from its first to its last.
pub proof fn law_decide_ends(sides: SidesView, machine: FailoverView, event: EventView)
    requires
        machine.wf(),
    ensures
        begin_decide(sides) matches DecideTurnView::Next(first, _) && first.steps_left() == 120,
        machine.step(event) matches DecideTurnView::Next(next, _) ==> next.steps_left()
            < machine.steps_left(),
{
    match machine.phase {
        PhaseView::Resolving => {
            if event == EventView::Resolved(true) {
                law_apply_is_short(machine.sides.subject(machine.round));
                lemma_applying_left(
                    machine.sides,
                    machine.round,
                    begin_apply(machine.sides.subject(machine.round)),
                );
            }
        },
        PhaseView::Applying(applier) => {
            law_apply_ends(applier, event);
            lemma_applying_left(machine.sides, machine.round, applier.step(event));
        },
        PhaseView::Waiting(waiter) => {
            law_wait_ends(waiter, event);
            lemma_waiting_left(machine.sides, machine.round, waiter.step(event));
        },
        PhaseView::Verifying(verifier) => {
            law_verify_ends(verifier, event);
            lemma_verifying_left(machine.sides, machine.round, verifier.step(event));
        },
    }
}

impl FailoverView {
    /// Whether what the decision is at keeps no one waiting for long.
    pub open spec fn timed(self) -> bool {
        match self.phase {
            PhaseView::Resolving => true,
            PhaseView::Applying(applier) => applier.timed(),
            PhaseView::Waiting(waiter) => waiter.timed(),
            PhaseView::Verifying(verifier) => verifier.timed(),
        }
    }
}

/// Whether the turn `out` goes on without keeping anyone waiting for
/// long.
spec fn goes_on_briefly(out: DecideTurnView) -> bool {
    out matches DecideTurnView::Next(next, action) ==> next.timed() && is_brief(action)
}

/// The turn that a brief turn of the change of configuration makes is
/// brief.
proof fn lemma_applying_brief(sides: SidesView, round: Round, turn: ApplyTurnView)
    requires
        turn matches ApplyTurnView::Next(applier, action) ==> applier.timed() && is_brief(action),
    ensures
        goes_on_briefly(FailoverView::applying(sides, round, turn)),
    decreases round.left(), 2nat,
{
    if turn is Done && round != Round::Rollback && turn->Done_0 is Ok {
        let subject = sides.subject(round);
        law_wait_is_brief(subject, full_wait(subject));
        lemma_waiting_brief(sides, round, begin_wait(subject, full_wait(subject)));
    }
}

/// The turn that a brief turn of the wait makes is brief.
proof fn lemma_waiting_brief(sides: SidesView, round: Round, turn: TurnView<WaiterView>)
    requires
        turn matches TurnView::Next(waiter, action) ==> waiter.timed() && is_brief(action),
    ensures
        goes_on_briefly(FailoverView::waiting(sides, round, turn)),
    decreases round.left(), 1nat,
{
    if turn is Done {
        law_verify_is_brief(sides.subject(round));
        lemma_verifying_brief(sides, round, begin_verify(sides.subject(round)));
    }
}

/// The turn that a brief turn of the verification makes is brief.
proof fn lemma_verifying_brief(sides: SidesView, round: Round, turn: TurnView<VerifierView>)
    requires
        turn matches TurnView::Next(verifier, action) ==> verifier.timed() && is_brief(action),
    ensures
        goes_on_briefly(FailoverView::verifying(sides, round, turn)),
    decreases round.left(), 0nat,
{
    if turn matches TurnView::Done(usable) && !usable {
        if round == Round::Current {
            law_apply_is_brief(sides.subject(Round::Alternate));
            lemma_applying_brief(
                sides,
                Round::Alternate,
                begin_apply(sides.subject(Round::Alternate)),
            );
        } else if round == Round::Alternate {
            law_apply_is_brief(sides.subject(Round::Rollback));
            lemma_applying_brief(
                sides,
                Round::Rollback,
                begin_apply(sides.subject(Round::Rollback)),
            );
        }
    }
}

/// A decision never keeps its driver waiting for more than a second at
/// a time, in a pause or for the reply to a check. With the bound on
/// what it asks for, this bounds the time that a decision spends
/// waiting.
pub proof fn law_decide_is_brief(sides: SidesView, machine: FailoverView, event: EventView)
    requires
        machine.wf(),
        machine.timed(),
    ensures
        begin_decide(sides) matches DecideTurnView::Next(first, action) && first.timed()
            && is_brief(action),
        machine.step(event) matches DecideTurnView::Next(next, action) ==> next.timed()
            && is_brief(action),
{
    match machine.phase {
        PhaseView::Resolving => {
            if event == EventView::Resolved(true) {
                law_apply_is_brief(machine.sides.subject(machine.round));
                lemma_applying_brief(
                    machine.sides,
                    machine.round,
                    begin_apply(machine.sides.subject(machine.round)),
                );
            }
        },
        PhaseView::Applying(applier) => {
            law_apply_stays_brief(applier, event);
            lemma_applying_brief(machine.sides, machine.round, applier.step(event));
        },
        PhaseView::Waiting(waiter) => {
            law_wait_stays_brief(waiter, event);
            lemma_waiting_brief(machine.sides, machine.round, waiter.step(event));
        },
        PhaseView::Verifying(verifier) => {
            law_verify_stays_brief(verifier, event);
            lemma_verifying_brief(machine.sides, machine.round, verifier.step(event));
        },
    }
}

} // verus!
