//! The profiles that can be put on an interface, and what makes one
//! well formed.

use vstd::prelude::*;
use crate::address::{
    is_dotted_quad, lemma_decimal_octet_injective, mask_fault, parse_ipv4, parse_octet,
    prefix_of_mask, subnet_to_prefix,
};
use crate::error::{ConfigError, ConfigErrorView, ConfigFault, ConfigFaultView};
use crate::text::{decimal, same_text};

verus! {

/// How an interface gets its address.
#[derive(Clone, Copy, Debug, PartialEq, Eq, Structural)]
pub enum AddressMode {
    Dhcp,
    Static,
}

/// Which of the two competing profiles is believed to be in effect.
#[derive(Clone, Copy, Debug, PartialEq, Eq, Structural)]
pub enum ActiveSide {
    Network1,
    Network2,
}

/// Parameters of a DHCP profile.
#[derive(Clone, Debug, PartialEq, Eq)]
pub struct DhcpConfig {
    /// DNS servers to set in place of those that the lease brings.
    pub dns: Option<Vec<String>>,
}

/// Parameters of a static profile.
#[derive(Clone, Debug, PartialEq, Eq)]
pub struct StaticConfig {
    /// The address, in dotted-quad notation.
    pub ip: String,
    /// The subnet mask in dotted-quad notation, or the prefix length as a
    /// decimal numeral.
    pub subnet: String,
    /// The default gateway, in dotted-quad notation.
    pub gateway: String,
    /// DNS servers, in order.
    pub dns: Option<Vec<String>>,
}

/// One addressing profile of an interface.
#[derive(Clone, Debug, PartialEq, Eq)]
pub struct NetworkConfig {
    /// `"dhcp"` or `"static"`.
    pub mode: String,
    pub dhcp: Option<DhcpConfig>,
    pub static_config: Option<StaticConfig>,
    /// The host whose reachability shows that the profile works.
    pub ping_target: String,
}

/// A `DhcpConfig` with its texts as sequences of characters.
pub struct DhcpConfigView {
    pub dns: Option<Seq<Seq<char>>>,
}

/// A `StaticConfig` with its texts as sequences of characters.
pub struct StaticConfigView {
    pub ip: Seq<char>,
    pub subnet: Seq<char>,
    pub gateway: Seq<char>,
    pub dns: Option<Seq<Seq<char>>>,
}

/// A `NetworkConfig` with its texts as sequences of characters.
pub struct NetworkConfigView {
    pub mode: Seq<char>,
    pub dhcp: Option<DhcpConfigView>,
    pub static_config: Option<StaticConfigView>,
    pub ping_target: Seq<char>,
}

impl View for DhcpConfig {
    type V = DhcpConfigView;

    open spec fn view(&self) -> DhcpConfigView {
        DhcpConfigView { dns: self.dns.deep_view() }
    }
}

impl View for StaticConfig {
    type V = StaticConfigView;

    open spec fn view(&self) -> StaticConfigView {
        StaticConfigView {
            ip: self.ip@,
            subnet: self.subnet@,
            gateway: self.gateway@,
            dns: self.dns.deep_view(),
        }
    }
}

impl View for NetworkConfig {
    type V = NetworkConfigView;

    open spec fn view(&self) -> NetworkConfigView {
        NetworkConfigView {
            mode: self.mode@,
            dhcp: match self.dhcp {
                Some(d) => Some(d@),
                None => None,
            },
            static_config: match self.static_config {
                Some(s) => Some(s@),
                None => None,
            },
            ping_target: self.ping_target@,
        }
    }
}

/// The addressing mode that the text `mode` names.
pub open spec fn mode_of(mode: Seq<char>) -> Option<AddressMode> {
    if mode == "dhcp"@ {
        Some(AddressMode::Dhcp)
    } else if mode == "static"@ {
        Some(AddressMode::Static)
    } else {
        None
    }
}

/// The side that the label names: `network2` names the second, anything
/// else the first.
pub open spec fn side_of(label: Seq<char>) -> ActiveSide {
    if label == "network2"@ {
        ActiveSide::Network2
    } else {
        ActiveSide::Network1
    }
}

/// The label of a side.
pub open spec fn side_label(side: ActiveSide) -> Seq<char> {
    match side {
        ActiveSide::Network1 => "network1"@,
        ActiveSide::Network2 => "network2"@,
    }
}

/// The prefix length that the subnet field of a static profile gives:
/// either written out as a decimal numeral of at most 32, or as a
/// contiguous dotted-quad mask.
pub open spec fn prefix_of_field(subnet: Seq<char>) -> Option<nat> {
    if exists|p: nat| p <= 32 && subnet == decimal(p) {
        Some(choose|p: nat| p <= 32 && subnet == decimal(p))
    } else {
        prefix_of_mask(subnet)
    }
}

/// Whether every entry of an optional list of DNS servers is a
/// dotted-quad address.
pub open spec fn dns_well_formed(dns: Option<Seq<Seq<char>>>) -> bool {
    dns is Some ==> all_dotted_quads(dns.unwrap())
}

/// Whether every entry of `list` is a dotted-quad address.
pub open spec fn all_dotted_quads(list: Seq<Seq<char>>) -> bool {
    forall|i: int| 0 <= i < list.len() ==> #[trigger] is_dotted_quad(list[i])
}

/// What is wrong with a static profile, if anything: the first of a bad
/// address, a bad mask, a bad gateway and a bad DNS server.
pub open spec fn static_fault(s: StaticConfigView) -> Option<ConfigFaultView> {
    if !is_dotted_quad(s.ip) {
        Some(ConfigFaultView::BadAddress)
    } else if prefix_of_field(s.subnet) is None {
        Some(mask_fault(s.subnet))
    } else if !is_dotted_quad(s.gateway) {
        Some(ConfigFaultView::BadGateway)
    } else if !dns_well_formed(s.dns) {
        Some(ConfigFaultView::BadDns)
    } else {
        None
    }
}

/// What is wrong with a profile, if anything. A mode that is neither
/// `dhcp` nor `static` is a fault that names the mode. Nothing can be
/// wrong with a DHCP profile: the DNS servers that it may name are set
/// as far as the system will take them.
pub open spec fn fault_of(cfg: NetworkConfigView) -> Option<ConfigFaultView> {
    match mode_of(cfg.mode) {
        None => Some(ConfigFaultView::UnknownMode(cfg.mode)),
        Some(AddressMode::Dhcp) => None,
        Some(AddressMode::Static) => match cfg.static_config {
            None => Some(ConfigFaultView::MissingStatic),
            Some(s) => static_fault(s),
        },
    }
}

impl ActiveSide {
    /// The other side.
    pub open spec fn spec_other(self) -> ActiveSide {
        match self {
            ActiveSide::Network1 => ActiveSide::Network2,
            ActiveSide::Network2 => ActiveSide::Network1,
        }
    }

    /// The other side.
    #[verifier::when_used_as_spec(spec_other)]
    pub fn other(self) -> (r: ActiveSide)
        ensures
            r == self.spec_other(),
    {
        match self {
            ActiveSide::Network1 => ActiveSide::Network2,
            ActiveSide::Network2 => ActiveSide::Network1,
        }
    }

    /// The side that a remembered label names; without a label, the first.
    pub fn from_label(label: Option<&str>) -> (r: ActiveSide)
        ensures
            r == match label {
                Some(l) => side_of(l@),
                None => ActiveSide::Network1,
            },
    {
        match label {
            Some(l) => if same_text(l, "network2") {
                ActiveSide::Network2
            } else {
                ActiveSide::Network1
            },
            None => ActiveSide::Network1,
        }
    }

    /// The label under which the side is remembered.
    pub fn label(self) -> (r: &'static str)
        ensures
            r@ == side_label(self),
    {
        match self {
            ActiveSide::Network1 => "network1",
            ActiveSide::Network2 => "network2",
        }
    }
}

/// The prefix length that the subnet field of a static profile gives. A
/// field that gives none is refused as a mask is: for its format where it
/// does not have four parts, else for its value.
pub fn parse_prefix(subnet: &str) -> (r: Result<u8, ConfigError>)
    ensures
        match r {
            Ok(p) => prefix_of_field(subnet@) == Some(p as nat),
            Err(e) => prefix_of_field(subnet@) is None && e@ == ConfigErrorView::InvalidConfig(
                mask_fault(subnet@),
            ),
        },
{
    match parse_octet(subnet) {
        Some(n) => {
            if n <= 32 {
                proof {
                    let found = choose|p: nat| p <= 32 && subnet@ == decimal(p);
                    lemma_decimal_octet_injective(found as u8, n);
                }
                Ok(n)
            } else {
                proof {
                    assert forall|p: nat| p <= 32 implies subnet@ != decimal(p) by {
                        if subnet@ == decimal(p) {
                            lemma_decimal_octet_injective(p as u8, n);
                        }
                    }
                }
                subnet_to_prefix(subnet)
            }
        },
        None => subnet_to_prefix(subnet),
    }
}

/// Tests whether every entry of an optional list of DNS servers is a
/// dotted-quad address.
pub fn dns_ok(dns: &Option<Vec<String>>) -> (ok: bool)
    ensures
        ok == dns_well_formed(dns.deep_view()),
{
    match dns {
        None => true,
        Some(list) => {
            let mut i: usize = 0;
            while i < list.len()
                invariant
                    i <= list.len(),
                    dns.deep_view() == Some(list.deep_view()),
                    forall|k: int| 0 <= k < i ==> #[trigger] is_dotted_quad(list.deep_view()[k]),
                decreases list.len() - i,
            {
                if parse_ipv4(list[i].as_str()).is_none() {
                    proof {
                        let texts = list.deep_view();
                        assert(dns.deep_view() == Some(texts));
                        assert(texts[i as int] == list[i as int]@);
                        assert(0 <= i < texts.len() && !is_dotted_quad(texts[i as int]));
                    }
                    return false;
                }
                assert(list.deep_view()[i as int] == list[i as int]@);
                i += 1;
            }
            true
        },
    }
}

impl StaticConfig {
    /// Checks the profile and gives the prefix length of its subnet.
    pub fn check(&self) -> (r: Result<u8, ConfigError>)
        ensures
            match r {
                Ok(p) => static_fault(self@) is None && prefix_of_field(self.subnet@) == Some(
                    p as nat,
                ),
                Err(e) => static_fault(self@) matches Some(fault) && e@
                    == ConfigErrorView::InvalidConfig(fault),
            },
    {
        if parse_ipv4(self.ip.as_str()).is_none() {
            return Err(ConfigError::InvalidConfig(ConfigFault::BadAddress));
        }
        let prefix = match parse_prefix(self.subnet.as_str()) {
            Ok(p) => p,
            Err(e) => { return Err(e); },
        };
        if parse_ipv4(self.gateway.as_str()).is_none() {
            return Err(ConfigError::InvalidConfig(ConfigFault::BadGateway));
        }
        if !dns_ok(&self.dns) {
            return Err(ConfigError::InvalidConfig(ConfigFault::BadDns));
        }
        Ok(prefix)
    }
}

impl NetworkConfig {
    /// The addressing mode that the profile names.
    pub fn address_mode(&self) -> (r: Option<AddressMode>)
        ensures
            r == mode_of(self.mode@),
    {
        if same_text(self.mode.as_str(), "dhcp") {
            Some(AddressMode::Dhcp)
        } else if same_text(self.mode.as_str(), "static") {
            Some(AddressMode::Static)
        } else {
            None
        }
    }

    /// Checks the profile: `Ok` exactly when nothing is wrong with it,
    /// else the first fault.
    pub fn check(&self) -> (r: Result<(), ConfigError>)
        ensures
            match r {
                Ok(_) => fault_of(self@) is None,
                Err(e) => fault_of(self@) matches Some(fault) && e@
                    == ConfigErrorView::InvalidConfig(fault),
            },
    {
        match self.address_mode() {
            None => Err(ConfigError::InvalidConfig(ConfigFault::UnknownMode(self.mode.clone()))),
            Some(AddressMode::Dhcp) => Ok(()),
            Some(AddressMode::Static) => match &self.static_config {
                None => Err(ConfigError::InvalidConfig(ConfigFault::MissingStatic)),
                Some(s) => match s.check() {
                    Ok(_) => Ok(()),
                    Err(e) => Err(e),
                },
            },
        }
    }
}

} // verus!
