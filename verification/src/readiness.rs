//! Waiting for an interface to take up the profile that was put on it.

use vstd::prelude::*;
use crate::backend::{
    is_brief, Action, ActionView, AddressReport, AddressReportView, Event, EventView, Turn,
    TurnView,
};
use crate::config::{mode_of, AddressMode, NetworkConfig, NetworkConfigView};
use crate::text::{begins_with, has_prefix, same_text};

verus! {

/// Milliseconds between two looks at an interface that waits for a lease.
pub const DHCP_POLL_MILLIS: u64 = 1000;

/// The most looks at an interface that waits for a lease.
pub const DHCP_POLLS: u64 = 6;

/// Milliseconds between two looks at an interface that was given a static
/// address.
pub const STATIC_POLL_MILLIS: u64 = 200;

/// The most looks at an interface that was given a static address.
pub const STATIC_POLLS: u64 = 8;

/// What the wait is for.
#[derive(Debug)]
pub enum Goal {
    /// A lease: an address outside the auto-configuration block and a
    /// gateway other than the unspecified address.
    Lease,
    /// The given address, exactly.
    Address(String),
}

/// A `Goal` with its text as a sequence of characters.
pub enum GoalView {
    Lease,
    Address(Seq<char>),
}

impl View for Goal {
    type V = GoalView;

    open spec fn view(&self) -> GoalView {
        match self {
            Goal::Lease => GoalView::Lease,
            Goal::Address(ip) => GoalView::Address(ip@),
        }
    }
}

/// Whether the interface reports a lease: an address that does not lie
/// in `169.254.0.0/16`, and a gateway that is not `0.0.0.0`.
pub open spec fn lease_arrived(report: AddressReportView) -> bool {
    &&& report.ip is Some
    &&& !has_prefix(report.ip.unwrap(), "169.254."@)
    &&& report.gateway is Some
    &&& report.gateway.unwrap() != "0.0.0.0"@
}

/// Whether what the interface reports meets the goal.
pub open spec fn converged(goal: GoalView, report: AddressReportView) -> bool {
    match goal {
        GoalView::Lease => lease_arrived(report),
        GoalView::Address(expected) => report.ip == Some(expected),
    }
}

/// Whether the answer `event` shows that the goal is met: it must be a
/// report, and the report must meet the goal.
pub open spec fn shows_convergence(goal: GoalView, event: EventView) -> bool {
    event matches EventView::Observed(Some(report)) && converged(goal, report)
}

/// The smaller of two numbers.
pub open spec fn at_most(a: u64, b: u64) -> u64 {
    if a <= b {
        a
    } else {
        b
    }
}

/// The address that a static profile expects to see on the interface; the
/// empty text where the profile has no static parameters.
pub open spec fn expected_address(cfg: NetworkConfigView) -> Seq<char> {
    match cfg.static_config {
        Some(s) => s.ip,
        None => Seq::<char>::empty(),
    }
}

/// The longest wait that is of use for the profile `cfg`, in
/// milliseconds: the time that the most looks take.
pub open spec fn full_wait(cfg: NetworkConfigView) -> u64 {
    match mode_of(cfg.mode) {
        Some(AddressMode::Dhcp) => (DHCP_POLLS * DHCP_POLL_MILLIS) as u64,
        Some(AddressMode::Static) => (STATIC_POLLS * STATIC_POLL_MILLIS) as u64,
        None => 0,
    }
}

/// A wait under way.
#[derive(Debug)]
pub struct Waiter {
    goal: Goal,
    interval: u64,
    polls_left: u64,
    pausing: bool,
}

/// The state of a `Waiter`: what it waits for, how long it pauses between
/// two looks, how many looks are left, the one in flight included, and
/// whether it pauses or looks.
pub struct WaiterView {
    pub goal: GoalView,
    pub interval: u64,
    pub polls_left: nat,
    pub pausing: bool,
}

impl View for Waiter {
    type V = WaiterView;

    closed spec fn view(&self) -> WaiterView {
        WaiterView {
            goal: self.goal@,
            interval: self.interval,
            polls_left: self.polls_left as nat,
            pausing: self.pausing,
        }
    }
}

impl WaiterView {
    /// Whether a look or a pause is in flight.
    pub open spec fn wf(self) -> bool {
        self.polls_left >= 1
    }

    /// The turn that begins a wait of at most `polls` looks.
    pub open spec fn begin(goal: GoalView, interval: u64, polls: nat) -> TurnView<WaiterView> {
        if polls == 0 {
            TurnView::Done(false)
        } else {
            TurnView::Next(
                WaiterView { goal, interval, polls_left: polls, pausing: false },
                ActionView::Observe,
            )
        }
    }

    /// The turn after the answer `event`. After a look: the end of the
    /// wait where the goal is met, else a pause. After a pause: the next
    /// look, or the end of the wait where none is left.
    pub open spec fn step(self, event: EventView) -> TurnView<WaiterView> {
        if self.pausing {
            Self::begin(self.goal, self.interval, (self.polls_left - 1) as nat)
        } else if shows_convergence(self.goal, event) {
            TurnView::Done(true)
        } else {
            TurnView::Next(WaiterView { pausing: true, ..self }, ActionView::Pause(self.interval))
        }
    }
}

/// The first turn of waiting at most `max_wait_ms` milliseconds for the
/// interface to take up `cfg`. A DHCP profile waits for a lease and a
/// static one for its address, each at its own pace and for as many looks
/// as fit into the time, up to its own limit. A static profile without an
/// address, and a profile of neither mode, have nothing to wait for.
pub open spec fn begin_wait(cfg: NetworkConfigView, max_wait_ms: u64) -> TurnView<WaiterView> {
    match mode_of(cfg.mode) {
        Some(AddressMode::Dhcp) => WaiterView::begin(
            GoalView::Lease,
            DHCP_POLL_MILLIS,
            at_most(DHCP_POLLS, max_wait_ms / DHCP_POLL_MILLIS) as nat,
        ),
        Some(AddressMode::Static) => if expected_address(cfg).len() == 0 {
            TurnView::Done(false)
        } else {
            WaiterView::begin(
                GoalView::Address(expected_address(cfg)),
                STATIC_POLL_MILLIS,
                at_most(STATIC_POLLS, max_wait_ms / STATIC_POLL_MILLIS) as nat,
            )
        },
        None => TurnView::Done(false),
    }
}

impl Goal {
    /// Tests whether what the interface reports meets the goal.
    pub fn met_by(&self, report: &AddressReport) -> (r: bool)
        ensures
            r == converged(self@, report@),
    {
        match self {
            Goal::Lease => {
                let ip_ok = match &report.ip {
                    Some(ip) => !begins_with(ip.as_str(), "169.254."),
                    None => false,
                };
                let gateway_ok = match &report.gateway {
                    Some(gateway) => !same_text(gateway.as_str(), "0.0.0.0"),
                    None => false,
                };
                ip_ok && gateway_ok
            },
            Goal::Address(expected) => match &report.ip {
                Some(ip) => same_text(ip.as_str(), expected.as_str()),
                None => false,
            },
        }
    }

    /// Tests whether the answer `event` shows that the goal is met.
    pub fn shown_by(&self, event: &Event) -> (r: bool)
        ensures
            r == shows_convergence(self@, event@),
    {
        match event {
            Event::Observed(Some(report)) => self.met_by(report),
            _ => false,
        }
    }
}

impl Waiter {
    /// A look or a pause is in flight for as long as the machine exists.
    #[verifier::type_invariant]
    spec fn in_flight(self) -> bool {
        self.polls_left >= 1
    }

    /// The turn that begins a wait of at most `polls` looks.
    fn begin(goal: Goal, interval: u64, polls: u64) -> (r: Turn<Waiter>)
        ensures
            r@ == WaiterView::begin(goal@, interval, polls as nat),
    {
        if polls == 0 {
            Turn::Done(false)
        } else {
            Turn::Next(
                Waiter { goal, interval, polls_left: polls, pausing: false },
                Action::Observe,
            )
        }
    }

    /// The longest wait that is of use for the profile `cfg`, in
    /// milliseconds.
    pub fn full_wait(cfg: &NetworkConfig) -> (r: u64)
        ensures
            r == full_wait(cfg@),
    {
        match cfg.address_mode() {
            Some(AddressMode::Dhcp) => DHCP_POLLS * DHCP_POLL_MILLIS,
            Some(AddressMode::Static) => STATIC_POLLS * STATIC_POLL_MILLIS,
            None => 0,
        }
    }

    /// Begins to wait, for at most `max_wait_ms` milliseconds, for the
    /// interface to take up `cfg`.
    pub fn start(cfg: &NetworkConfig, max_wait_ms: u64) -> (r: Turn<Waiter>)
        ensures
            r@ == begin_wait(cfg@, max_wait_ms),
    {
        match cfg.address_mode() {
            Some(AddressMode::Dhcp) => {
                let fit = max_wait_ms / DHCP_POLL_MILLIS;
                let polls = if DHCP_POLLS <= fit {
                    DHCP_POLLS
                } else {
                    fit
                };
                Waiter::begin(Goal::Lease, DHCP_POLL_MILLIS, polls)
            },
            Some(AddressMode::Static) => {
                let expected = match &cfg.static_config {
                    Some(s) => s.ip.clone(),
                    None => String::new(),
                };
                if expected.as_str().unicode_len() == 0 {
                    return Turn::Done(false);
                }
                let fit = max_wait_ms / STATIC_POLL_MILLIS;
                let polls = if STATIC_POLLS <= fit {
                    STATIC_POLLS
                } else {
                    fit
                };
                Waiter::begin(Goal::Address(expected), STATIC_POLL_MILLIS, polls)
            },
            None => Turn::Done(false),
        }
    }

    /// Takes the answer to the look or pause in flight and says what
    /// comes next.
    pub fn step(self, event: Event) -> (r: Turn<Waiter>)
        ensures
            self@.wf(),
            r@ == self@.step(event@),
    {
        proof {
            use_type_invariant(&self);
        }
        if self.pausing {
            Waiter::begin(self.goal, self.interval, self.polls_left - 1)
        } else if self.goal.shown_by(&event) {
            Turn::Done(true)
        } else {
            let interval = self.interval;
            Turn::Next(
                Waiter {
                    goal: self.goal,
                    interval: self.interval,
                    polls_left: self.polls_left,
                    pausing: true,
                },
                Action::Pause(interval),
            )
        }
    }
}

impl WaiterView {
    /// The number of looks and pauses that are still to be answered.
    pub open spec fn steps_left(self) -> nat {
        if self.pausing {
            (2 * self.polls_left - 1) as nat
        } else {
            2 * self.polls_left
        }
    }
}

/// No wait has more than eight looks and eight pauses, however long it
/// may take.
pub proof fn law_wait_is_short(cfg: NetworkConfigView, max_wait_ms: u64)
    ensures
        begin_wait(cfg, max_wait_ms) matches TurnView::Next(first, _) ==> first.wf()
            && first.steps_left() <= 16,
{
}

/// A wait ends: every answer leaves fewer looks and pauses to be
/// answered.
pub proof fn law_wait_ends(machine: WaiterView, event: EventView)
    requires
        machine.wf(),
    ensures
        machine.step(event) matches TurnView::Next(next, _) ==> next.wf() && next.steps_left()
            < machine.steps_left(),
{
}

impl WaiterView {
    /// Whether the pauses of the wait are brief.
    pub open spec fn timed(self) -> bool {
        is_brief(ActionView::Pause(self.interval))
    }
}

/// No wait pauses for long between two looks.
pub proof fn law_wait_is_brief(cfg: NetworkConfigView, max_wait_ms: u64)
    ensures
        begin_wait(cfg, max_wait_ms) matches TurnView::Next(first, action) ==> first.timed()
            && is_brief(action),
{
}

/// A wait whose pauses are brief goes on that way.
pub proof fn law_wait_stays_brief(machine: WaiterView, event: EventView)
    requires
        machine.timed(),
    ensures
        machine.step(event) matches TurnView::Next(next, action) ==> next.timed() && is_brief(
            action,
        ),
{
}

} // verus!
