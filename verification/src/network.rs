//! The operations on one interface, each as the first turn of the
//! machine that carries it out or as the command that it comes down to.

use vstd::prelude::*;
use crate::apply::{begin_apply, Applier, ApplyTurn};
use crate::backend::{
    output_verdict, unit_result_view, Action, ActionView, Command, CommandOutput, CommandView,
    Turn,
};
use crate::config::{
    side_of, ActiveSide, NetworkConfig, NetworkConfigView, StaticConfig, StaticConfigView,
};
use crate::error::ConfigError;
use crate::failover::{begin_decide, DecideTurn, Failover, SidesView};
use crate::inventory::{
    adapter_from, find_config, last_entry, link_kind, kind_label, unknown_config, AdapterLink,
    IpConfig, NetworkAdapter,
};
use crate::probe::{begin_probe, Prober};
use crate::readiness::{begin_wait, full_wait, Waiter};
use crate::script::{powershell, powershell_cmd, switch_adapter, switch_script, Invocation};
use crate::verify::{begin_verify, Verifier};

verus! {

/// The static profile with the given parameters and without a target.
pub open spec fn static_profile(
    ip: Seq<char>,
    subnet: Seq<char>,
    gateway: Seq<char>,
    dns: Seq<Seq<char>>,
) -> NetworkConfigView {
    NetworkConfigView {
        mode: "static"@,
        dhcp: None,
        static_config: Some(StaticConfigView { ip, subnet, gateway, dns: Some(dns) }),
        ping_target: ""@,
    }
}

/// The DHCP profile that keeps the DNS servers of the lease, without a
/// target.
pub open spec fn dhcp_profile() -> NetworkConfigView {
    NetworkConfigView { mode: "dhcp"@, dhcp: None, static_config: None, ping_target: ""@ }
}

/// Begins to give an interface the static address `ip` with the mask
/// `subnet`, the default gateway `gateway` and the DNS servers `dns`.
pub fn set_static_ip(ip: String, subnet: String, gateway: String, dns: Vec<String>) -> (r:
    ApplyTurn)
    ensures
        r@ == begin_apply(static_profile(ip@, subnet@, gateway@, dns.deep_view())),
{
    let cfg = NetworkConfig {
        mode: "static".to_owned(),
        dhcp: None,
        static_config: Some(StaticConfig { ip, subnet, gateway, dns: Some(dns) }),
        ping_target: "".to_owned(),
    };
    Applier::start(&cfg)
}

/// Begins to have an interface take its address from DHCP.
pub fn set_dhcp() -> (r: ApplyTurn)
    ensures
        r@ == begin_apply(dhcp_profile()),
{
    let cfg = NetworkConfig {
        mode: "dhcp".to_owned(),
        dhcp: None,
        static_config: None,
        ping_target: "".to_owned(),
    };
    Applier::start(&cfg)
}

/// The command that sets the DNS servers `dns` and leaves the way the
/// interface gets its address alone; none for an empty list.
pub fn set_dns_servers_internal(dns: Vec<String>) -> (r: Option<Command>)
    ensures
        dns.len() == 0 ==> r is None,
        dns.len() > 0 ==> (r matches Some(command) && command@ == (CommandView::SetDns {
            servers: dns.deep_view(),
        })),
{
    if dns.len() == 0 {
        None
    } else {
        Some(Command::SetDns { servers: dns })
    }
}

/// Judges the output of a command that PowerShell ran.
pub fn check_powershell_output(output: &CommandOutput) -> (r: Result<(), ConfigError>)
    ensures
        unit_result_view(r) == output_verdict(output@),
{
    output.verdict()
}

/// The one check of `host` from wherever the system routes it, with
/// `timeout_sec` seconds for the reply.
pub fn ping_test(host: &str, timeout_sec: u64) -> (r: Action)
    ensures
        r@ == (ActionView::Probe { source: None, target: host@, timeout_secs: timeout_sec }),
{
    Action::Probe { source: None, target: host.to_owned(), timeout_secs: timeout_sec }
}

/// Begins a series of checks of `host` from wherever the system routes
/// it: any reply ends it with success.
pub fn ping_test_with_retries(host: &str, timeout_sec: u64, attempts: u32, delay_ms: u64) -> (r:
    Turn<Prober>)
    ensures
        r@ == begin_probe(host@, timeout_sec, false, attempts, delay_ms),
{
    Prober::start(host, timeout_sec, false, attempts, delay_ms)
}

/// Begins one check of `host` from the address of the interface under
/// test.
pub fn ping_test_on_adapter(host: &str, timeout_sec: u64) -> (r: Turn<Prober>)
    ensures
        r@ == begin_probe(host@, timeout_sec, true, 1, 0),
{
    Prober::start(host, timeout_sec, true, 1, 0)
}

/// Begins a series of checks of `host` from the address of the interface
/// under test: any reply ends it with success.
pub fn ping_test_on_adapter_with_retries(
    host: &str,
    timeout_sec: u64,
    attempts: u32,
    delay_ms: u64,
) -> (r: Turn<Prober>)
    ensures
        r@ == begin_probe(host@, timeout_sec, true, attempts, delay_ms),
{
    Prober::start(host, timeout_sec, true, attempts, delay_ms)
}

/// Begins to wait for the interface to take up `cfg`, for as long as is
/// of use for a profile of its mode.
pub fn wait_adapter_ready(cfg: &NetworkConfig) -> (r: Turn<Waiter>)
    ensures
        r@ == begin_wait(cfg@, full_wait(cfg@)),
{
    Waiter::start(cfg, Waiter::full_wait(cfg))
}

/// Begins to verify that the profile `cfg`, which is on the interface
/// and was given time to settle, is usable: first the gateway, then the
/// profile's target.
pub fn test_side_connectivity(cfg: &NetworkConfig) -> (r: Turn<Verifier>)
    ensures
        r@ == begin_verify(cfg@),
{
    Verifier::start(cfg)
}

/// Begins to put the profile `cfg` on an interface.
pub fn apply_network_config(cfg: &NetworkConfig) -> (r: ApplyTurn)
    ensures
        r@ == begin_apply(cfg@),
{
    Applier::start(cfg)
}

/// Begins the decision between the profiles `network1_config` and
/// `network2_config` for an interface on which the side that
/// `current_active` names is believed to be in effect: the first where
/// nothing is remembered.
pub fn auto_switch_network(
    current_active: Option<&str>,
    network1_config: NetworkConfig,
    network2_config: NetworkConfig,
) -> (r: DecideTurn)
    ensures
        r@ == begin_decide(
            SidesView {
                network1: network1_config@,
                network2: network2_config@,
                active: match current_active {
                    Some(label) => side_of(label@),
                    None => ActiveSide::Network1,
                },
            },
        ),
{
    Failover::start(ActiveSide::from_label(current_active), network1_config, network2_config)
}

/// The invocation that switches the interface `adapter_name` off.
pub fn disable_adapter(adapter_name: &str) -> (r: Invocation)
    ensures
        r@ == powershell(switch_script(adapter_name@, false)),
{
    powershell_cmd(switch_adapter(adapter_name, false))
}

/// The invocation that switches the interface `adapter_name` on.
pub fn enable_adapter(adapter_name: &str) -> (r: Invocation)
    ensures
        r@ == powershell(switch_script(adapter_name@, true)),
{
    powershell_cmd(switch_adapter(adapter_name, true))
}

/// Whether `adapter` is what is known of the interface that `link` tells
/// of, given the configurations that were read: its configuration is the
/// one that was entered last under its name, and where there is none,
/// nothing is known of how it is configured.
pub open spec fn adapter_matches(
    adapter: NetworkAdapter,
    link: AdapterLink,
    configs: Seq<(String, IpConfig)>,
) -> bool {
    &&& adapter.name == link.name
    &&& adapter.network_type@ == kind_label(link_kind(link))
    &&& adapter.is_wireless == link_kind(link).is_wireless()
    &&& adapter.is_enabled == (link.status@ == "Up"@)
    &&& adapter.mac_address == link.mac_address
    &&& adapter.duration == link.duration
    &&& adapter.link_speed == link.link_speed
    &&& adapter.bytes_sent == link.bytes_sent
    &&& adapter.bytes_received == link.bytes_received
    &&& match last_entry(configs, link.name@) {
        Some(at) => {
            &&& adapter.is_dhcp == configs[at].1.is_dhcp
            &&& adapter.ip_address.deep_view() == configs[at].1.ip_address.deep_view()
            &&& adapter.subnet_mask.deep_view() == configs[at].1.subnet_mask.deep_view()
            &&& adapter.gateway.deep_view() == configs[at].1.gateway.deep_view()
            &&& adapter.dns_servers.deep_view() == configs[at].1.dns_servers.deep_view()
        },
        None => {
            &&& !adapter.is_dhcp
            &&& adapter.ip_address is None
            &&& adapter.subnet_mask is None
            &&& adapter.gateway is None
            &&& adapter.dns_servers is None
        },
    }
}

/// Puts together what is known of the interfaces of the machine: one
/// entry for each link, in order, with the configuration that was read
/// for its name.
pub fn get_network_info(links: &Vec<AdapterLink>, configs: &Vec<(String, IpConfig)>) -> (r: Vec<
    NetworkAdapter,
>)
    ensures
        r.len() == links.len(),
        forall|i: int| 0 <= i < r.len() ==> adapter_matches(#[trigger] r[i], links[i], configs@),
{
    let mut r: Vec<NetworkAdapter> = Vec::new();
    let mut i: usize = 0;
    while i < links.len()
        invariant
            i <= links.len(),
            r.len() == i,
            forall|k: int| 0 <= k < i ==> adapter_matches(#[trigger] r[k], links[k], configs@),
        decreases links.len() - i,
    {
        let config = match find_config(configs, links[i].name.as_str()) {
            Some(found) => found.duplicate(),
            None => unknown_config(),
        };
        r.push(adapter_from(&links[i], config));
        i += 1;
    }
    r
}

/// The names of those of `links` for which `configs` holds no
/// configuration, in order.
pub open spec fn unconfigured_of(links: Seq<AdapterLink>, configs: Seq<(String, IpConfig)>) -> Seq<
    Seq<char>,
>
    decreases links.len(),
{
    if links.len() == 0 {
        Seq::<Seq<char>>::empty()
    } else if last_entry(configs, links.last().name@) is None {
        unconfigured_of(links.drop_last(), configs).push(links.last().name@)
    } else {
        unconfigured_of(links.drop_last(), configs)
    }
}

/// The names of the interfaces for which no configuration was read, in
/// the order of their links: those that have to be asked one by one.
pub fn unconfigured(links: &Vec<AdapterLink>, configs: &Vec<(String, IpConfig)>) -> (r: Vec<
    String,
>)
    ensures
        r.deep_view() == unconfigured_of(links@, configs@),
{
    let mut r: Vec<String> = Vec::new();
    let mut j: usize = 0;
    proof {
        assert(r.deep_view() =~= unconfigured_of(links@.take(0), configs@));
    }
    while j < links.len()
        invariant
            j <= links.len(),
            r.deep_view() == unconfigured_of(links@.take(j as int), configs@),
        decreases links.len() - j,
    {
        let ghost upto = links@.take(j + 1);
        let ghost before = r.deep_view();
        proof {
            assert(upto.drop_last() == links@.take(j as int));
            assert(upto.last() == links[j as int]);
        }
        if find_config(configs, links[j].name.as_str()).is_none() {
            r.push(links[j].name.clone());
            proof {
                assert(r.deep_view() =~= before.push(links[j as int].name@));
            }
        }
        j += 1;
    }
    proof {
        assert(links@.take(links.len() as int) == links@);
    }
    r
}

} // verus!
