//! Putting a profile on an interface: the steps it takes, in order, and
//! the machine that walks through them.

use vstd::prelude::*;
use crate::backend::{
    is_brief, result_verdict, unit_result_view, Action, ActionView, Command, CommandView, Event,
    EventView,
};
use crate::config::{
    fault_of, mode_of, prefix_of_field, AddressMode, NetworkConfig, NetworkConfigView,
    StaticConfig, StaticConfigView,
};
use crate::error::{
    CommandFailure, CommandFailureView, ConfigError, ConfigErrorView, ConfigFault,
};
use crate::text::copy_texts;

verus! {

/// How long to let the interface settle after its old address and route
/// were removed, in milliseconds.
pub const SETTLE_MILLIS: u64 = 100;

/// Why a command counts as not started where the answer to it is not the
/// result of a command.
pub const NO_ANSWER: &'static str = "no result";

/// One step of putting a profile on an interface.
#[derive(Clone, Debug, PartialEq, Eq)]
pub enum PlanStep {
    /// Run a command. Where the step is fatal its failure ends the whole
    /// change; where it is not, its failure is passed over.
    Run { command: Command, fatal: bool },
    /// Let the interface settle for so many milliseconds.
    Settle { millis: u64 },
}

/// A `PlanStep` with its texts as sequences of characters.
pub enum PlanStepView {
    Run { command: CommandView, fatal: bool },
    Settle { millis: u64 },
}

impl View for PlanStep {
    type V = PlanStepView;

    open spec fn view(&self) -> PlanStepView {
        match self {
            PlanStep::Run { command, fatal } => PlanStepView::Run {
                command: command@,
                fatal: *fatal,
            },
            PlanStep::Settle { millis } => PlanStepView::Settle { millis: *millis },
        }
    }
}

/// The views of the steps of a plan, in order.
pub open spec fn plan_view(plan: Seq<PlanStep>) -> Seq<PlanStepView> {
    Seq::new(plan.len(), |i: int| plan[i]@)
}

/// A step whose failure ends the change.
pub open spec fn fatal(command: CommandView) -> PlanStepView {
    PlanStepView::Run { command, fatal: true }
}

/// A step whose failure is passed over.
pub open spec fn best_effort(command: CommandView) -> PlanStepView {
    PlanStepView::Run { command, fatal: false }
}

/// Whether an optional list holds at least one entry.
pub open spec fn has_entries(list: Option<Seq<Seq<char>>>) -> bool {
    list is Some && list.unwrap().len() > 0
}

/// The steps that put a static profile on an interface. What is left of
/// an earlier configuration goes first, as far as it will go. Then the
/// address is bound, then the default route set, and only with both in
/// place DHCP is switched off; the DNS servers come last, where there
/// are any. From the binding of the address on, every step must succeed.
pub open spec fn static_plan(s: StaticConfigView, prefix: u8) -> Seq<PlanStepView> {
    let core = seq![
        best_effort(CommandView::RemoveDefaultRoute),
        best_effort(CommandView::RemoveAddress),
        PlanStepView::Settle { millis: SETTLE_MILLIS },
        fatal(CommandView::AssignAddress { ip: s.ip, prefix }),
        fatal(CommandView::SetDefaultGateway { gateway: s.gateway }),
        fatal(CommandView::DisableDhcp),
    ];
    if has_entries(s.dns) {
        core.push(fatal(CommandView::SetDns { servers: s.dns.unwrap() }))
    } else {
        core
    }
}

/// The steps that put a DHCP profile on an interface. What is left of an
/// earlier configuration goes first, as far as it will go. Switching
/// DHCP on must succeed. Without servers of its own the profile then
/// goes back to the DNS servers of the lease and asks for the lease to be
/// renewed; with servers of its own it asks for the renewal and sets
/// them once the lease is there. None of these last steps ends the
/// change when it fails.
pub open spec fn dhcp_plan(dns: Option<Seq<Seq<char>>>) -> Seq<PlanStepView> {
    let core = seq![
        best_effort(CommandView::RemoveDefaultRoute),
        best_effort(CommandView::RemoveAddress),
        fatal(CommandView::EnableDhcp),
    ];
    if has_entries(dns) {
        core.push(best_effort(CommandView::RenewLease)).push(
            best_effort(CommandView::SetDns { servers: dns.unwrap() }),
        )
    } else {
        core.push(best_effort(CommandView::ResetDns)).push(best_effort(CommandView::RenewLease))
    }
}

/// The DNS servers that a DHCP profile sets in place of the lease's.
pub open spec fn dhcp_dns(cfg: NetworkConfigView) -> Option<Seq<Seq<char>>> {
    match cfg.dhcp {
        Some(d) => d.dns,
        None => None,
    }
}

/// The steps that put the profile `cfg` on an interface, or the fault for
/// which it is refused.
pub open spec fn plan_of(cfg: NetworkConfigView) -> Result<Seq<PlanStepView>, ConfigErrorView> {
    match fault_of(cfg) {
        Some(fault) => Err(ConfigErrorView::InvalidConfig(fault)),
        None => match mode_of(cfg.mode) {
            Some(AddressMode::Static) => Ok(
                static_plan(
                    cfg.static_config.unwrap(),
                    prefix_of_field(cfg.static_config.unwrap().subnet).unwrap() as u8,
                ),
            ),
            _ => Ok(dhcp_plan(dhcp_dns(cfg))),
        },
    }
}

/// What the step `step` asks the driver to do.
pub open spec fn step_action(step: PlanStepView) -> ActionView {
    match step {
        PlanStepView::Run { command, .. } => ActionView::Run(command),
        PlanStepView::Settle { millis } => ActionView::Pause(millis),
    }
}

/// What the answer `event` means for the step `step`. Settling cannot
/// fail. A command went as its result says; an answer that is not the
/// result of a command counts as the command not having been started.
/// Only a fatal step passes its failure on.
pub open spec fn step_verdict(step: PlanStepView, event: EventView) -> Result<
    (),
    ConfigErrorView,
> {
    match step {
        PlanStepView::Settle { .. } => Ok(()),
        PlanStepView::Run { fatal, .. } => if !fatal {
            Ok(())
        } else {
            match event {
                EventView::Ran(result) => result_verdict(result),
                _ => Err(
                    ConfigErrorView::CommandFailed(CommandFailureView::NotStarted(NO_ANSWER@)),
                ),
            }
        },
    }
}

/// A change of configuration under way: its plan, and the step that the
/// driver was last asked to take.
#[derive(Debug)]
pub struct Applier {
    plan: Vec<PlanStep>,
    next: usize,
}

/// The state of an `Applier`.
pub struct ApplierView {
    pub plan: Seq<PlanStepView>,
    pub next: nat,
}

/// What an `Applier` says after each answer: either the next thing to do,
/// with the machine to hand the answer to, or how the change ended.
#[derive(Debug)]
pub enum ApplyTurn {
    Next(Applier, Action),
    Done(Result<(), ConfigError>),
}

/// An `ApplyTurn` with its texts as sequences of characters.
pub enum ApplyTurnView {
    Next(ApplierView, ActionView),
    Done(Result<(), ConfigErrorView>),
}

impl View for Applier {
    type V = ApplierView;

    closed spec fn view(&self) -> ApplierView {
        ApplierView { plan: plan_view(self.plan@), next: self.next as nat }
    }
}

impl View for ApplyTurn {
    type V = ApplyTurnView;

    open spec fn view(&self) -> ApplyTurnView {
        match self {
            ApplyTurn::Next(applier, action) => ApplyTurnView::Next(applier@, action@),
            ApplyTurn::Done(result) => ApplyTurnView::Done(unit_result_view(*result)),
        }
    }
}

impl ApplierView {
    /// Whether a step is in flight.
    pub open spec fn wf(self) -> bool {
        self.next < self.plan.len()
    }

    /// The turn that takes up the plan at the step `index`: that step's
    /// action or, past the last step, the end of the change.
    pub open spec fn at(plan: Seq<PlanStepView>, index: nat) -> ApplyTurnView {
        if index < plan.len() {
            ApplyTurnView::Next(ApplierView { plan, next: index }, step_action(plan[index as int]))
        } else {
            ApplyTurnView::Done(Ok(()))
        }
    }

    /// The turn after the answer `event` to the step in flight: the end
    /// of the change where the step passes a failure on, else the next
    /// step.
    pub open spec fn step(self, event: EventView) -> ApplyTurnView {
        match step_verdict(self.plan[self.next as int], event) {
            Err(e) => ApplyTurnView::Done(Err(e)),
            Ok(_) => Self::at(self.plan, self.next + 1),
        }
    }
}

/// The first turn of putting `cfg` on an interface: a malformed profile
/// ends the change before anything is asked of the driver.
pub open spec fn begin_apply(cfg: NetworkConfigView) -> ApplyTurnView {
    match plan_of(cfg) {
        Err(e) => ApplyTurnView::Done(Err(e)),
        Ok(plan) => ApplierView::at(plan, 0),
    }
}

impl Command {
    /// A copy of the command.
    pub fn duplicate(&self) -> (r: Command)
        ensures
            r@ == self@,
    {
        match self {
            Command::RemoveDefaultRoute => Command::RemoveDefaultRoute,
            Command::RemoveAddress => Command::RemoveAddress,
            Command::AssignAddress { ip, prefix } => Command::AssignAddress {
                ip: ip.clone(),
                prefix: *prefix,
            },
            Command::SetDefaultGateway { gateway } => Command::SetDefaultGateway {
                gateway: gateway.clone(),
            },
            Command::EnableDhcp => Command::EnableDhcp,
            Command::DisableDhcp => Command::DisableDhcp,
            Command::SetDns { servers } => Command::SetDns { servers: copy_texts(servers) },
            Command::ResetDns => Command::ResetDns,
            Command::RenewLease => Command::RenewLease,
            Command::EnableAdapter => Command::EnableAdapter,
            Command::DisableAdapter => Command::DisableAdapter,
        }
    }
}

impl PlanStep {
    /// What the step asks the driver to do.
    pub fn action(&self) -> (r: Action)
        ensures
            r@ == step_action(self@),
    {
        match self {
            PlanStep::Run { command, .. } => Action::Run(command.duplicate()),
            PlanStep::Settle { millis } => Action::Pause(*millis),
        }
    }

    /// What the answer `event` means for the step.
    pub fn verdict(&self, event: Event) -> (r: Result<(), ConfigError>)
        ensures
            unit_result_view(r) == step_verdict(self@, event@),
    {
        match self {
            PlanStep::Settle { .. } => Ok(()),
            PlanStep::Run { fatal, .. } => {
                if !*fatal {
                    return Ok(());
                }
                match event {
                    Event::Ran(result) => result.verdict(),
                    _ => Err(
                        ConfigError::CommandFailed(
                            CommandFailure::NotStarted(NO_ANSWER.to_owned()),
                        ),
                    ),
                }
            },
        }
    }
}

/// The steps that put a static profile on an interface.
pub fn static_steps(s: &StaticConfig, prefix: u8) -> (plan: Vec<PlanStep>)
    ensures
        plan_view(plan@) == static_plan(s@, prefix),
{
    let mut plan: Vec<PlanStep> = Vec::new();
    plan.push(PlanStep::Run { command: Command::RemoveDefaultRoute, fatal: false });
    plan.push(PlanStep::Run { command: Command::RemoveAddress, fatal: false });
    plan.push(PlanStep::Settle { millis: SETTLE_MILLIS });
    plan.push(
        PlanStep::Run { command: Command::AssignAddress { ip: s.ip.clone(), prefix }, fatal: true },
    );
    plan.push(
        PlanStep::Run {
            command: Command::SetDefaultGateway { gateway: s.gateway.clone() },
            fatal: true,
        },
    );
    plan.push(PlanStep::Run { command: Command::DisableDhcp, fatal: true });
    match &s.dns {
        Some(list) => {
            if list.len() > 0 {
                plan.push(
                    PlanStep::Run {
                        command: Command::SetDns { servers: copy_texts(list) },
                        fatal: true,
                    },
                );
            }
        },
        None => {},
    }
    assert(plan_view(plan@) =~= static_plan(s@, prefix));
    plan
}

/// The steps that put a DHCP profile on an interface, with the DNS
/// servers `dns` in place of the lease's where it holds any.
pub fn dhcp_steps(dns: &Option<Vec<String>>) -> (plan: Vec<PlanStep>)
    ensures
        plan_view(plan@) == dhcp_plan(dns.deep_view()),
{
    let mut plan: Vec<PlanStep> = Vec::new();
    plan.push(PlanStep::Run { command: Command::RemoveDefaultRoute, fatal: false });
    plan.push(PlanStep::Run { command: Command::RemoveAddress, fatal: false });
    plan.push(PlanStep::Run { command: Command::EnableDhcp, fatal: true });
    let servers: Option<Vec<String>> = match dns {
        Some(list) => if list.len() > 0 {
            Some(copy_texts(list))
        } else {
            None
        },
        None => None,
    };
    match servers {
        Some(servers) => {
            plan.push(PlanStep::Run { command: Command::RenewLease, fatal: false });
            plan.push(PlanStep::Run { command: Command::SetDns { servers }, fatal: false });
        },
        None => {
            plan.push(PlanStep::Run { command: Command::ResetDns, fatal: false });
            plan.push(PlanStep::Run { command: Command::RenewLease, fatal: false });
        },
    }
    assert(plan_view(plan@) =~= dhcp_plan(dns.deep_view()));
    plan
}

/// The steps that put the profile `cfg` on an interface, or the fault for
/// which it is refused.
pub fn plan_for(cfg: &NetworkConfig) -> (r: Result<Vec<PlanStep>, ConfigError>)
    ensures
        match r {
            Ok(plan) => plan_of(cfg@) == Ok::<Seq<PlanStepView>, ConfigErrorView>(
                plan_view(plan@),
            ),
            Err(e) => plan_of(cfg@) == Err::<Seq<PlanStepView>, ConfigErrorView>(e@),
        },
{
    match cfg.address_mode() {
        None => Err(ConfigError::InvalidConfig(ConfigFault::UnknownMode(cfg.mode.clone()))),
        Some(AddressMode::Static) => match &cfg.static_config {
            None => Err(ConfigError::InvalidConfig(ConfigFault::MissingStatic)),
            Some(s) => match s.check() {
                Ok(prefix) => Ok(static_steps(s, prefix)),
                Err(e) => Err(e),
            },
        },
        Some(AddressMode::Dhcp) => match &cfg.dhcp {
            Some(d) => Ok(dhcp_steps(&d.dns)),
            None => Ok(dhcp_steps(&None)),
        },
    }
}

impl Applier {
    /// A step is in flight for as long as the machine exists.
    #[verifier::type_invariant]
    spec fn in_flight(self) -> bool {
        self.next < self.plan.len()
    }

    /// The turn that takes up `plan` at the step `index`.
    fn resume(plan: Vec<PlanStep>, index: usize) -> (r: ApplyTurn)
        ensures
            r@ == ApplierView::at(plan_view(plan@), index as nat),
    {
        if index < plan.len() {
            let action = plan[index].action();
            ApplyTurn::Next(Applier { plan, next: index }, action)
        } else {
            ApplyTurn::Done(Ok(()))
        }
    }

    /// Begins to put `cfg` on an interface. A malformed profile ends the
    /// change at once, with its first fault and with nothing asked of the
    /// driver; any other begins with the first step of its plan.
    pub fn start(cfg: &NetworkConfig) -> (r: ApplyTurn)
        ensures
            r@ == begin_apply(cfg@),
    {
        match plan_for(cfg) {
            Err(e) => ApplyTurn::Done(Err(e)),
            Ok(plan) => Applier::resume(plan, 0),
        }
    }

    /// Takes the answer to the step in flight and says what comes next.
    pub fn step(self, event: Event) -> (r: ApplyTurn)
        ensures
            self@.wf(),
            r@ == self@.step(event@),
    {
        proof {
            use_type_invariant(&self);
        }
        match self.plan[self.next].verdict(event) {
            Err(e) => ApplyTurn::Done(Err(e)),
            Ok(_) => Applier::resume(self.plan, self.next + 1),
        }
    }
}

/// Whether the step binds an address.
pub open spec fn binds_address(step: PlanStepView) -> bool {
    step matches PlanStepView::Run { command, .. } && command is AssignAddress
}

/// Whether the step sets the default gateway.
pub open spec fn sets_gateway(step: PlanStepView) -> bool {
    step matches PlanStepView::Run { command, .. } && command is SetDefaultGateway
}

/// Whether the step switches DHCP off.
pub open spec fn ends_dhcp(step: PlanStepView) -> bool {
    step matches PlanStepView::Run { command, .. } && command is DisableDhcp
}

/// Whether the failure of the step ends the change.
pub open spec fn is_fatal(step: PlanStepView) -> bool {
    step matches PlanStepView::Run { fatal, .. } && fatal
}

/// In the plan of a static profile the address is bound before the
/// gateway is set, and DHCP is switched off only after both; none of the
/// three may fail.
pub proof fn law_address_then_gateway_then_dhcp_off(
    s: StaticConfigView,
    prefix: u8,
    plan: Seq<PlanStepView>,
)
    requires
        plan == static_plan(s, prefix),
    ensures
        forall|i: int, j: int|
            0 <= i < plan.len() && 0 <= j < plan.len() && binds_address(#[trigger] plan[i])
                && sets_gateway(#[trigger] plan[j]) ==> i < j,
        forall|j: int, k: int|
            0 <= j < plan.len() && 0 <= k < plan.len() && sets_gateway(#[trigger] plan[j])
                && ends_dhcp(#[trigger] plan[k]) ==> j < k,
        exists|i: int, j: int, k: int|
            0 <= i < j < k < plan.len() && binds_address(#[trigger] plan[i]) && sets_gateway(
                #[trigger] plan[j],
            ) && ends_dhcp(#[trigger] plan[k]),
        forall|i: int|
            0 <= i < plan.len() && (binds_address(#[trigger] plan[i]) || sets_gateway(plan[i])
                || ends_dhcp(plan[i])) ==> is_fatal(plan[i]),
{
    assert(binds_address(plan[3]) && sets_gateway(plan[4]) && ends_dhcp(plan[5]));
}

/// A profile that is malformed is refused with its first fault before
/// anything is asked of the driver: no command reaches the system.
pub proof fn law_malformed_runs_nothing(cfg: NetworkConfigView)
    requires
        fault_of(cfg) is Some,
    ensures
        begin_apply(cfg) == ApplyTurnView::Done(
            Err(ConfigErrorView::InvalidConfig(fault_of(cfg).unwrap())),
        ),
{
}

/// A change goes through its plan in order, one step after the other: it
/// never goes back, and it ends with the last step at the latest.
pub proof fn law_apply_advances(machine: ApplierView, event: EventView)
    requires
        machine.wf(),
    ensures
        machine.step(event) matches ApplyTurnView::Next(next, action) ==> next.wf() && next.plan
            == machine.plan && next.next == machine.next + 1 && action == step_action(
            machine.plan[next.next as int],
        ),
{
}

impl ApplierView {
    /// The number of steps that are still to be answered.
    pub open spec fn steps_left(self) -> nat {
        (self.plan.len() - self.next) as nat
    }
}

/// No change has more than seven steps.
pub proof fn law_apply_is_short(cfg: NetworkConfigView)
    ensures
        begin_apply(cfg) matches ApplyTurnView::Next(first, _) ==> first.wf() && first.steps_left()
            <= 7,
{
}

/// A change ends: every answer leaves fewer steps to be answered.
pub proof fn law_apply_ends(machine: ApplierView, event: EventView)
    requires
        machine.wf(),
    ensures
        machine.step(event) matches ApplyTurnView::Next(next, _) ==> next.wf() && next.steps_left()
            < machine.steps_left(),
{
}

/// Whether the step, where it lets the interface settle, does so
/// briefly.
pub open spec fn settles_briefly(step: PlanStepView) -> bool {
    is_brief(step_action(step))
}

impl ApplierView {
    /// Whether no step of the plan keeps the driver waiting for long.
    pub open spec fn timed(self) -> bool {
        forall|i: int| 0 <= i < self.plan.len() ==> settles_briefly(#[trigger] self.plan[i])
    }
}

/// No change of configuration keeps the driver waiting for long.
pub proof fn law_apply_is_brief(cfg: NetworkConfigView)
    ensures
        begin_apply(cfg) matches ApplyTurnView::Next(first, action) ==> first.timed() && is_brief(
            action,
        ),
{
    match begin_apply(cfg) {
        ApplyTurnView::Next(first, _) => {
            assert(first.timed());
            assert(settles_briefly(first.plan[0]));
        },
        ApplyTurnView::Done(_) => {},
    }
}

/// A change of configuration that keeps no one waiting for long goes on
/// that way.
pub proof fn law_apply_stays_brief(machine: ApplierView, event: EventView)
    requires
        machine.wf(),
        machine.timed(),
    ensures
        machine.step(event) matches ApplyTurnView::Next(next, action) ==> next.timed() && is_brief(
            action,
        ),
{
    match machine.step(event) {
        ApplyTurnView::Next(next, _) => {
            assert(settles_briefly(machine.plan[next.next as int]));
        },
        ApplyTurnView::Done(_) => {},
    }
}

} // verus!
