//! A model of what the steps of a change do to an interface, for stating
//! what a change as a whole brings about. The model says what each
//! command means once it has succeeded and the interface has settled.

use vstd::prelude::*;
use crate::apply::{dhcp_plan, plan_of, static_plan, PlanStepView};
use crate::backend::CommandView;
use crate::config::{mode_of, prefix_of_field, AddressMode, NetworkConfigView};

verus! {

/// What can be seen of an interface from outside: its address, its
/// default gateway, and whether it takes them from DHCP.
pub struct InterfaceState {
    pub address: Option<Seq<char>>,
    pub gateway: Option<Seq<char>>,
    pub dhcp: bool,
}

/// What the DHCP server of the network hands out.
pub struct Lease {
    pub address: Seq<char>,
    pub gateway: Seq<char>,
}

/// The interface after `command` has succeeded. With DHCP switched on
/// the interface has what the lease gives it; a renewal gives it the same
/// again; the commands that set the DNS servers, and those that switch the
/// interface on and off, leave what is modelled alone.
pub open spec fn after_command(state: InterfaceState, lease: Lease, command: CommandView)
    -> InterfaceState {
    match command {
        CommandView::RemoveDefaultRoute => InterfaceState { gateway: None, ..state },
        CommandView::RemoveAddress => InterfaceState { address: None, ..state },
        CommandView::AssignAddress { ip, .. } => InterfaceState { address: Some(ip), ..state },
        CommandView::SetDefaultGateway { gateway } => InterfaceState {
            gateway: Some(gateway),
            ..state
        },
        CommandView::EnableDhcp => InterfaceState {
            address: Some(lease.address),
            gateway: Some(lease.gateway),
            dhcp: true,
        },
        CommandView::DisableDhcp => InterfaceState { dhcp: false, ..state },
        CommandView::RenewLease => if state.dhcp {
            InterfaceState {
                address: Some(lease.address),
                gateway: Some(lease.gateway),
                dhcp: true,
            }
        } else {
            state
        },
        CommandView::SetDns { .. } => state,
        CommandView::ResetDns => state,
        CommandView::EnableAdapter => state,
        CommandView::DisableAdapter => state,
    }
}

/// The interface after the step `step` has succeeded.
pub open spec fn after_step(state: InterfaceState, lease: Lease, step: PlanStepView)
    -> InterfaceState {
    match step {
        PlanStepView::Run { command, .. } => after_command(state, lease, command),
        PlanStepView::Settle { .. } => state,
    }
}

/// The interface after every step of `plan` has succeeded, in order.
pub open spec fn after_plan(state: InterfaceState, lease: Lease, plan: Seq<PlanStepView>)
    -> InterfaceState
    decreases plan.len(),
{
    if plan.len() == 0 {
        state
    } else {
        after_step(after_plan(state, lease, plan.drop_last()), lease, plan.last())
    }
}

/// A plan with one more step leaves the interface as the plan does, and
/// then the step.
pub proof fn lemma_after_push(
    state: InterfaceState,
    lease: Lease,
    plan: Seq<PlanStepView>,
    step: PlanStepView,
)
    ensures
        after_plan(state, lease, plan.push(step)) == after_step(
            after_plan(state, lease, plan),
            lease,
            step,
        ),
{
    assert(plan.push(step).drop_last() == plan);
}

/// A static profile that was put on an interface has left it with the
/// address and the gateway of the profile and with DHCP off, whatever it
/// was like before.
pub proof fn law_static_result(
    state: InterfaceState,
    lease: Lease,
    cfg: NetworkConfigView,
    plan: Seq<PlanStepView>,
)
    requires
        plan_of(cfg) == Ok::<Seq<PlanStepView>, crate::error::ConfigErrorView>(plan),
        mode_of(cfg.mode) == Some(AddressMode::Static),
    ensures
        after_plan(state, lease, plan) == (InterfaceState {
            address: Some(cfg.static_config.unwrap().ip),
            gateway: Some(cfg.static_config.unwrap().gateway),
            dhcp: false,
        }),
{
    let s = cfg.static_config.unwrap();
    let prefix = prefix_of_field(s.subnet).unwrap() as u8;
    let first0 = Seq::<PlanStepView>::empty();
    let full = static_plan(s, prefix);
    let first1 = first0.push(full[0]);
    let first2 = first1.push(full[1]);
    let first3 = first2.push(full[2]);
    let first4 = first3.push(full[3]);
    let first5 = first4.push(full[4]);
    let first6 = first5.push(full[5]);
    lemma_after_push(state, lease, first0, full[0]);
    lemma_after_push(state, lease, first1, full[1]);
    lemma_after_push(state, lease, first2, full[2]);
    lemma_after_push(state, lease, first3, full[3]);
    lemma_after_push(state, lease, first4, full[4]);
    lemma_after_push(state, lease, first5, full[5]);
    if full.len() == 7 {
        lemma_after_push(state, lease, first6, full[6]);
        assert(full =~= first6.push(full[6]));
    } else {
        assert(full =~= first6);
    }
}

/// A DHCP profile that was put on an interface has left it with the
/// address and the gateway of the lease and with DHCP on, whatever it was
/// like before.
pub proof fn law_dhcp_result(
    state: InterfaceState,
    lease: Lease,
    cfg: NetworkConfigView,
    plan: Seq<PlanStepView>,
)
    requires
        plan_of(cfg) == Ok::<Seq<PlanStepView>, crate::error::ConfigErrorView>(plan),
        mode_of(cfg.mode) == Some(AddressMode::Dhcp),
    ensures
        after_plan(state, lease, plan) == (InterfaceState {
            address: Some(lease.address),
            gateway: Some(lease.gateway),
            dhcp: true,
        }),
{
    let full = dhcp_plan(crate::apply::dhcp_dns(cfg));
    let first0 = Seq::<PlanStepView>::empty();
    let first1 = first0.push(full[0]);
    let first2 = first1.push(full[1]);
    let first3 = first2.push(full[2]);
    let first4 = first3.push(full[3]);
    lemma_after_push(state, lease, first0, full[0]);
    lemma_after_push(state, lease, first1, full[1]);
    lemma_after_push(state, lease, first2, full[2]);
    lemma_after_push(state, lease, first3, full[3]);
    lemma_after_push(state, lease, first4, full[4]);
    assert(full =~= first4.push(full[4]));
}

/// Putting the same profile on an interface twice in a row leaves the
/// address, the gateway and the use of DHCP as putting it on once does.
pub proof fn law_apply_idempotent(
    state: InterfaceState,
    lease: Lease,
    cfg: NetworkConfigView,
    plan: Seq<PlanStepView>,
)
    requires
        plan_of(cfg) == Ok::<Seq<PlanStepView>, crate::error::ConfigErrorView>(plan),
    ensures
        after_plan(after_plan(state, lease, plan), lease, plan) == after_plan(state, lease, plan),
{
    let once = after_plan(state, lease, plan);
    if mode_of(cfg.mode) == Some(AddressMode::Static) {
        law_static_result(state, lease, cfg, plan);
        law_static_result(once, lease, cfg, plan);
    } else {
        law_dhcp_result(state, lease, cfg, plan);
        law_dhcp_result(once, lease, cfg, plan);
    }
}

} // verus!
