//! Deciding whether the profile that is on an interface is usable: the
//! gateway must answer, and then the profile's own target.

use vstd::prelude::*;
use crate::backend::{is_brief, Action, ActionView, Event, EventView, Turn, TurnView};
use crate::config::{mode_of, AddressMode, NetworkConfig, NetworkConfigView};
use crate::probe::{begin_probe, source_in, Prober, ProberView};
use crate::text::{is_blank, same_text, trim, trimmed};

verus! {

/// Attempts that each of the two checks gets.
pub const CHECK_ATTEMPTS: u32 = 2;

/// Seconds that each attempt has to be answered.
pub const CHECK_TIMEOUT_SECS: u64 = 1;

/// Milliseconds between two attempts.
pub const CHECK_DELAY_MS: u64 = 300;

/// Whether `gateway` names a gateway at all: it is neither blank nor,
/// white space aside, the unspecified address.
pub open spec fn usable_gateway(gateway: Seq<char>) -> bool {
    trim(gateway).len() > 0 && trim(gateway) != "0.0.0.0"@
}

/// The gateway that a static profile names; the empty text where the
/// profile has no static parameters.
pub open spec fn static_gateway(cfg: NetworkConfigView) -> Seq<char> {
    match cfg.static_config {
        Some(s) => s.gateway,
        None => Seq::<char>::empty(),
    }
}

/// The gateway that the answer `event` reports; the empty text where it
/// reports none.
pub open spec fn observed_gateway(event: EventView) -> Seq<char> {
    match event {
        EventView::Observed(Some(report)) => match report.gateway {
            Some(gateway) => gateway,
            None => Seq::<char>::empty(),
        },
        _ => Seq::<char>::empty(),
    }
}

/// What a `Verifier` is at.
#[derive(Debug)]
pub enum VerifyStage {
    /// It waits for the interface's report, to learn the gateway.
    Lookup,
    /// It probes the gateway.
    Gateway(Prober),
    /// The gateway has answered; it probes the profile's target.
    Target(Prober),
}

/// The state of a `VerifyStage`.
pub enum VerifyStageView {
    Lookup,
    Gateway(ProberView),
    Target(ProberView),
}

impl View for VerifyStage {
    type V = VerifyStageView;

    open spec fn view(&self) -> VerifyStageView {
        match self {
            VerifyStage::Lookup => VerifyStageView::Lookup,
            VerifyStage::Gateway(prober) => VerifyStageView::Gateway(prober@),
            VerifyStage::Target(prober) => VerifyStageView::Target(prober@),
        }
    }
}

/// A verification under way.
#[derive(Debug)]
pub struct Verifier {
    ping_target: String,
    stage: VerifyStage,
}

/// The state of a `Verifier`: the target to probe once the gateway has
/// answered, and what it is at.
pub struct VerifierView {
    pub ping_target: Seq<char>,
    pub stage: VerifyStageView,
}

impl View for Verifier {
    type V = VerifierView;

    closed spec fn view(&self) -> VerifierView {
        VerifierView { ping_target: self.ping_target@, stage: self.stage@ }
    }
}

/// The series of checks that each of the two stages makes of `target`,
/// bound to the interface under test.
pub open spec fn begin_check(target: Seq<char>) -> TurnView<ProberView> {
    begin_probe(target, CHECK_TIMEOUT_SECS, true, CHECK_ATTEMPTS, CHECK_DELAY_MS)
}

impl VerifierView {
    /// Whether the series of checks under way is a sound one, bound to
    /// the interface under test.
    pub open spec fn wf(self) -> bool {
        match self.stage {
            VerifyStageView::Lookup => true,
            VerifyStageView::Gateway(prober) => prober.wf() && prober.bound,
            VerifyStageView::Target(prober) => prober.wf() && prober.bound,
        }
    }

    /// The turn that a turn of the check of the target makes: the result
    /// of that check is the result of the verification.
    pub open spec fn target_turn(ping_target: Seq<char>, turn: TurnView<ProberView>) -> TurnView<
        VerifierView,
    > {
        match turn {
            TurnView::Next(prober, action) => TurnView::Next(
                VerifierView { ping_target, stage: VerifyStageView::Target(prober) },
                action,
            ),
            TurnView::Done(reached) => TurnView::Done(reached),
        }
    }

    /// The turn that a turn of the check of the gateway makes: a gateway
    /// that does not answer ends the verification, one that answers
    /// begins the check of the target.
    pub open spec fn gateway_turn(ping_target: Seq<char>, turn: TurnView<ProberView>) -> TurnView<
        VerifierView,
    > {
        match turn {
            TurnView::Next(prober, action) => TurnView::Next(
                VerifierView { ping_target, stage: VerifyStageView::Gateway(prober) },
                action,
            ),
            TurnView::Done(reached) => if reached {
                Self::target_turn(ping_target, begin_check(ping_target))
            } else {
                TurnView::Done(false)
            },
        }
    }

    /// The turn that follows once the gateway is known: without a usable
    /// gateway the verification ends, and nothing is probed; with one,
    /// the check of the gateway begins.
    pub open spec fn with_gateway(ping_target: Seq<char>, gateway: Seq<char>) -> TurnView<
        VerifierView,
    > {
        if usable_gateway(gateway) {
            Self::gateway_turn(ping_target, begin_check(trim(gateway)))
        } else {
            TurnView::Done(false)
        }
    }

    /// The turn after the answer `event`.
    pub open spec fn step(self, event: EventView) -> TurnView<VerifierView> {
        match self.stage {
            VerifyStageView::Lookup => Self::with_gateway(
                self.ping_target,
                observed_gateway(event),
            ),
            VerifyStageView::Gateway(prober) => Self::gateway_turn(
                self.ping_target,
                prober.step(event),
            ),
            VerifyStageView::Target(prober) => Self::target_turn(
                self.ping_target,
                prober.step(event),
            ),
        }
    }
}

/// The first turn of verifying that the profile `cfg`, which is on the
/// interface, is usable. The gateway of a static profile is the one it
/// names; that of a DHCP profile is the one that the interface reports,
/// so the verification begins by asking for the report. A profile of
/// neither mode is not usable.
pub open spec fn begin_verify(cfg: NetworkConfigView) -> TurnView<VerifierView> {
    match mode_of(cfg.mode) {
        Some(AddressMode::Static) => VerifierView::with_gateway(
            cfg.ping_target,
            static_gateway(cfg),
        ),
        Some(AddressMode::Dhcp) => TurnView::Next(
            VerifierView { ping_target: cfg.ping_target, stage: VerifyStageView::Lookup },
            ActionView::Observe,
        ),
        None => TurnView::Done(false),
    }
}

/// Tests whether `gateway` names a gateway at all, and gives it without
/// the white space around it where it does.
pub fn usable(gateway: &str) -> (r: Option<String>)
    ensures
        r.deep_view() == if usable_gateway(gateway@) {
            Some(trim(gateway@))
        } else {
            None
        },
{
    let name = trimmed(gateway);
    if name.as_str().unicode_len() == 0 || same_text(name.as_str(), "0.0.0.0") {
        None
    } else {
        Some(name)
    }
}

/// The gateway that the answer `event` reports; the empty text where it
/// reports none.
pub fn gateway_in(event: Event) -> (r: String)
    ensures
        r@ == observed_gateway(event@),
{
    match event {
        Event::Observed(Some(report)) => match report.gateway {
            Some(gateway) => gateway,
            None => String::new(),
        },
        _ => String::new(),
    }
}

impl Verifier {
    /// Whatever the machine probes, it probes bound to the interface
    /// under test.
    #[verifier::type_invariant]
    spec fn probes_bound(self) -> bool {
        match self.stage {
            VerifyStage::Lookup => true,
            VerifyStage::Gateway(prober) => prober@.bound,
            VerifyStage::Target(prober) => prober@.bound,
        }
    }

    /// The series of checks that each of the two stages makes of `target`.
    fn begin_check(target: &str) -> (r: Turn<Prober>)
        ensures
            r@ == begin_check(target@),
    {
        Prober::start(target, CHECK_TIMEOUT_SECS, true, CHECK_ATTEMPTS, CHECK_DELAY_MS)
    }

    /// The turn that a turn of the check of the target makes.
    fn target_turn(ping_target: String, turn: Turn<Prober>) -> (r: Turn<Verifier>)
        requires
            turn matches Turn::Next(prober, _) ==> prober@.bound,
        ensures
            r@ == VerifierView::target_turn(ping_target@, turn@),
    {
        match turn {
            Turn::Next(prober, action) => Turn::Next(
                Verifier { ping_target, stage: VerifyStage::Target(prober) },
                action,
            ),
            Turn::Done(reached) => Turn::Done(reached),
        }
    }

    /// The turn that a turn of the check of the gateway makes.
    fn gateway_turn(ping_target: String, turn: Turn<Prober>) -> (r: Turn<Verifier>)
        requires
            turn matches Turn::Next(prober, _) ==> prober@.bound,
        ensures
            r@ == VerifierView::gateway_turn(ping_target@, turn@),
    {
        match turn {
            Turn::Next(prober, action) => Turn::Next(
                Verifier { ping_target, stage: VerifyStage::Gateway(prober) },
                action,
            ),
            Turn::Done(reached) => if reached {
                let first = Verifier::begin_check(ping_target.as_str());
                Verifier::target_turn(ping_target, first)
            } else {
                Turn::Done(false)
            },
        }
    }

    /// The turn that follows once the gateway is known.
    fn with_gateway(ping_target: String, gateway: &str) -> (r: Turn<Verifier>)
        ensures
            r@ == VerifierView::with_gateway(ping_target@, gateway@),
    {
        match usable(gateway) {
            Some(name) => {
                let first = Verifier::begin_check(name.as_str());
                Verifier::gateway_turn(ping_target, first)
            },
            None => Turn::Done(false),
        }
    }

    /// Begins to verify that the profile `cfg`, which is on the
    /// interface, is usable.
    pub fn start(cfg: &NetworkConfig) -> (r: Turn<Verifier>)
        ensures
            r@ == begin_verify(cfg@),
    {
        match cfg.address_mode() {
            Some(AddressMode::Static) => {
                let gateway = match &cfg.static_config {
                    Some(s) => s.gateway.clone(),
                    None => String::new(),
                };
                Verifier::with_gateway(cfg.ping_target.clone(), gateway.as_str())
            },
            Some(AddressMode::Dhcp) => Turn::Next(
                Verifier { ping_target: cfg.ping_target.clone(), stage: VerifyStage::Lookup },
                Action::Observe,
            ),
            None => Turn::Done(false),
        }
    }

    /// Takes the answer to what is in flight and says what comes next.
    pub fn step(self, event: Event) -> (r: Turn<Verifier>)
        ensures
            self@.wf(),
            r@ == self@.step(event@),
    {
        proof {
            use_type_invariant(&self);
        }
        match self.stage {
            VerifyStage::Lookup => {
                let gateway = gateway_in(event);
                Verifier::with_gateway(self.ping_target, gateway.as_str())
            },
            VerifyStage::Gateway(prober) => {
                let turn = prober.step(event);
                Verifier::gateway_turn(self.ping_target, turn)
            },
            VerifyStage::Target(prober) => {
                let turn = prober.step(event);
                Verifier::target_turn(self.ping_target, turn)
            },
        }
    }
}

/// A verification that begins is a sound one.
pub proof fn law_verify_begins_sound(cfg: NetworkConfigView)
    ensures
        begin_verify(cfg) matches TurnView::Next(next, _) ==> next.wf(),
{
}

/// A sound verification stays one.
pub proof fn law_verify_stays_sound(machine: VerifierView, event: EventView)
    requires
        machine.wf(),
    ensures
        machine.step(event) matches TurnView::Next(next, _) ==> next.wf(),
{
}

/// A profile without a usable gateway is not usable, and to find that out
/// nothing is probed: a static profile whose gateway is blank or the
/// unspecified address is refused before the first action, and a DHCP
/// profile on an interface that reports such a gateway, or none, is
/// refused on that report.
pub proof fn law_no_gateway_no_probe(cfg: NetworkConfigView, event: EventView)
    ensures
        mode_of(cfg.mode) == Some(AddressMode::Static) && !usable_gateway(static_gateway(cfg))
            ==> begin_verify(cfg) == TurnView::<VerifierView>::Done(false),
        mode_of(cfg.mode) == Some(AddressMode::Dhcp) ==> (begin_verify(cfg) matches TurnView::Next(
            lookup,
            action,
        ) && action == ActionView::Observe && (!usable_gateway(observed_gateway(event))
            ==> lookup.step(event) == TurnView::<VerifierView>::Done(false))),
{
}

/// The profile's target is probed only once the gateway has answered: a
/// verification that is not yet at the target gets there by no other
/// answer than a reply to the check of the gateway.
pub proof fn law_target_after_gateway(machine: VerifierView, event: EventView)
    requires
        machine.wf(),
        !(machine.stage is Target),
    ensures
        machine.step(event) matches TurnView::Next(next, _) && next.stage is Target ==> (
        machine.stage is Gateway && crate::probe::shows_reply(event)),
{
}

/// Every check that a verification sends is sent from the address that
/// the interface has just reported, and that address is not blank: on an
/// interface without an address nothing is probed.
pub proof fn law_verify_probes_from_interface(machine: VerifierView, event: EventView)
    requires
        machine.wf(),
    ensures
        machine.step(event) matches TurnView::Next(_, ActionView::Probe { source, .. })
            ==> source == source_in(event) && source is Some && !is_blank(source.unwrap()),
{
}

/// No verification begins with a check: the first thing asked for, if
/// anything, is the interface's report.
pub proof fn law_verify_begins_with_report(cfg: NetworkConfigView)
    ensures
        begin_verify(cfg) matches TurnView::Next(_, action) ==> action == ActionView::Observe,
{
}

impl VerifierView {
    /// The number of things that are still to be answered at most.
    pub open spec fn steps_left(self) -> nat {
        match self.stage {
            VerifyStageView::Lookup => 14,
            VerifyStageView::Gateway(prober) => prober.steps_left() + 7,
            VerifyStageView::Target(prober) => prober.steps_left(),
        }
    }
}

/// No verification asks for more than fourteen things.
pub proof fn law_verify_is_short(cfg: NetworkConfigView)
    ensures
        begin_verify(cfg) matches TurnView::Next(first, _) ==> first.wf() && first.steps_left()
            <= 14,
{
}

/// A verification ends: every answer leaves less to be answered.
pub proof fn law_verify_ends(machine: VerifierView, event: EventView)
    requires
        machine.wf(),
    ensures
        machine.step(event) matches TurnView::Next(next, _) ==> next.wf() && next.steps_left()
            < machine.steps_left(),
{
}

impl VerifierView {
    /// Whether the series of checks under way keeps no one waiting for
    /// long.
    pub open spec fn timed(self) -> bool {
        match self.stage {
            VerifyStageView::Lookup => true,
            VerifyStageView::Gateway(prober) => prober.timed(),
            VerifyStageView::Target(prober) => prober.timed(),
        }
    }
}

/// No verification keeps the driver waiting for long.
pub proof fn law_verify_is_brief(cfg: NetworkConfigView)
    ensures
        begin_verify(cfg) matches TurnView::Next(first, action) ==> first.timed() && is_brief(
            action,
        ),
{
}

/// A verification that keeps no one waiting for long goes on that way.
pub proof fn law_verify_stays_brief(machine: VerifierView, event: EventView)
    requires
        machine.timed(),
    ensures
        machine.step(event) matches TurnView::Next(next, action) ==> next.timed() && is_brief(
            action,
        ),
{
}

} // verus!
