//! What the system reports of its interfaces, read from the output of the
//! scripts that ask it.

use vstd::prelude::*;
use crate::address::{mask_of_prefix, prefix_to_subnet};
use crate::backend::{AddressReport, AddressReportView};
use crate::json::{
    json_items, json_items_of, json_signed_member, json_signed_member_of, json_text_member,
    json_text_member_of, json_unsigned_member, json_unsigned_member_of, lowercase_of,
    uppercase_of,
};
use crate::text::{
    chars_of, copy_text, copy_texts, each_trimmed, has, has_infix, pieces, same_text, split_on,
    split_trimmed, string_of, trim, trimmed,
};

verus! {

/// The byte order mark that PowerShell may put before its output.
pub const BYTE_ORDER_MARK: char = '\u{FEFF}';

/// `s` without white space around it and without a byte order mark
/// before it.
pub open spec fn cleaned(s: Seq<char>) -> Seq<char> {
    let t = trim(s);
    if t.len() > 0 && t[0] == BYTE_ORDER_MARK {
        t.drop_first()
    } else {
        t
    }
}

/// `s` without white space around it and without a byte order mark
/// before it.
pub fn clean(s: &str) -> (r: String)
    ensures
        r@ == cleaned(s@),
{
    let t = trimmed(s);
    let v = chars_of(t.as_str());
    if v.len() > 0 && v[0] == BYTE_ORDER_MARK {
        let r = string_of(&v, 1, v.len());
        proof {
            assert(v@.subrange(1, v.len() as int) == v@.drop_first());
        }
        r
    } else {
        t
    }
}

/// What the script that reads an interface's address and gateway says,
/// given the two members of its answer as they were read: a report where
/// the answer is a well-formed document, else nothing.
pub open spec fn report_of(ip: Option<Option<Seq<char>>>, gateway: Option<Option<Seq<char>>>)
    -> Option<AddressReportView> {
    if ip is Some && gateway is Some {
        Some(AddressReportView { ip: ip.unwrap(), gateway: gateway.unwrap() })
    } else {
        None
    }
}

/// The view of a report that may be missing.
pub open spec fn report_view(r: Option<AddressReport>) -> Option<AddressReportView> {
    match r {
        Some(report) => Some(report@),
        None => None,
    }
}

/// Puts the report together from the two members of the answer as they
/// were read.
pub fn address_report_from(ip: Option<Option<String>>, gateway: Option<Option<String>>) -> (r:
    Option<AddressReport>)
    ensures
        report_view(r) == report_of(ip.deep_view(), gateway.deep_view()),
{
    match (ip, gateway) {
        (Some(ip), Some(gateway)) => Some(AddressReport { ip, gateway }),
        _ => None,
    }
}

/// Reads the answer of the script that reads an interface's address and
/// gateway: the members `ip` and `gw` of a JSON object.
pub fn get_ipv4_and_gateway(stdout: &str) -> (r: Option<AddressReport>)
    ensures
        report_view(r) == report_of(
            json_text_member_of(trim(stdout@), "ip"@),
            json_text_member_of(trim(stdout@), "gw"@),
        ),
{
    let raw = trimmed(stdout);
    let ip = json_text_member(raw.as_str(), "ip");
    let gateway = json_text_member(raw.as_str(), "gw");
    address_report_from(ip, gateway)
}

/// The kinds of network that an interface may belong to.
#[derive(Clone, Copy, Debug, PartialEq, Eq, Structural)]
pub enum NetworkKind {
    Bluetooth,
    Wifi,
    Vpn,
    Ethernet,
    Other,
}

/// The kind of an interface, told from its description and its name,
/// both in lower case. The first that fits of: Bluetooth, wireless, VPN,
/// Ethernet.
pub open spec fn kind_of(description: Seq<char>, name: Seq<char>) -> NetworkKind {
    if has_infix(description, "bluetooth"@) || has_infix(name, "bluetooth"@) {
        NetworkKind::Bluetooth
    } else if has_infix(description, "wireless"@) || has_infix(description, "wifi"@) || has_infix(
        description,
        "802.11"@,
    ) || has_infix(name, "wlan"@) {
        NetworkKind::Wifi
    } else if has_infix(description, "vpn"@) || has_infix(name, "vpn"@) || has_infix(
        description,
        "tunnel"@,
    ) {
        NetworkKind::Vpn
    } else if has_infix(description, "ethernet"@) || has_infix(name, "ethernet"@) || has_infix(
        name,
        "以太网"@,
    ) {
        NetworkKind::Ethernet
    } else {
        NetworkKind::Other
    }
}

/// The word for a kind of network.
pub open spec fn kind_label(kind: NetworkKind) -> Seq<char> {
    match kind {
        NetworkKind::Bluetooth => "bluetooth"@,
        NetworkKind::Wifi => "wifi"@,
        NetworkKind::Vpn => "vpn"@,
        NetworkKind::Ethernet => "ethernet"@,
        NetworkKind::Other => "other"@,
    }
}

impl NetworkKind {
    /// Whether networks of this kind go over the air.
    pub open spec fn spec_is_wireless(self) -> bool {
        self == NetworkKind::Bluetooth || self == NetworkKind::Wifi
    }

    /// Whether networks of this kind go over the air.
    #[verifier::when_used_as_spec(spec_is_wireless)]
    pub fn is_wireless(self) -> (r: bool)
        ensures
            r == self.spec_is_wireless(),
    {
        match self {
            NetworkKind::Bluetooth => true,
            NetworkKind::Wifi => true,
            _ => false,
        }
    }

    /// The word for the kind.
    pub fn label(self) -> (r: &'static str)
        ensures
            r@ == kind_label(self),
    {
        match self {
            NetworkKind::Bluetooth => "bluetooth",
            NetworkKind::Wifi => "wifi",
            NetworkKind::Vpn => "vpn",
            NetworkKind::Ethernet => "ethernet",
            NetworkKind::Other => "other",
        }
    }
}

/// Tells the kind of an interface from its description and its name,
/// both in lower case.
pub fn classify(description: &str, name: &str) -> (r: NetworkKind)
    ensures
        r == kind_of(description@, name@),
{
    if has(description, "bluetooth") || has(name, "bluetooth") {
        NetworkKind::Bluetooth
    } else if has(description, "wireless") || has(description, "wifi") || has(
        description,
        "802.11",
    ) || has(name, "wlan") {
        NetworkKind::Wifi
    } else if has(description, "vpn") || has(name, "vpn") || has(description, "tunnel") {
        NetworkKind::Vpn
    } else if has(description, "ethernet") || has(name, "ethernet") || has(name, "以太网") {
        NetworkKind::Ethernet
    } else {
        NetworkKind::Other
    }
}

/// Tells the kind of an interface from its description and its name,
/// whatever their case.
pub fn network_kind(description: &str, name: &str) -> (r: NetworkKind)
    ensures
        r == kind_of(lowercase_of(description@), lowercase_of(name@)),
{
    let description = description.to_lowercase();
    let name = name.to_lowercase();
    classify(description.as_str(), name.as_str())
}

/// The text member that was read, or `fallback` where there is none.
pub open spec fn text_or(member: Option<Option<Seq<char>>>, fallback: Seq<char>) -> Seq<char> {
    match member {
        Some(Some(text)) => text,
        _ => fallback,
    }
}

/// The text member that was read, if there is one.
pub open spec fn text_if_any(member: Option<Option<Seq<char>>>) -> Option<Seq<char>> {
    match member {
        Some(found) => found,
        None => None,
    }
}

/// A count that was read as a signed number, as the unsigned number of
/// the same 64 bits.
pub open spec fn count_of(member: Option<Option<i64>>) -> Option<u64> {
    match member {
        Some(Some(n)) => Some(
            if n >= 0 {
                n as u64
            } else {
                (n + 0x1_0000_0000_0000_0000) as u64
            },
        ),
        _ => None,
    }
}

/// The text member that was read, or `fallback` where there is none.
pub fn member_or(member: Option<Option<String>>, fallback: &str) -> (r: String)
    ensures
        r@ == text_or(member.deep_view(), fallback@),
{
    match member {
        Some(Some(text)) => text,
        _ => fallback.to_owned(),
    }
}

/// The text member that was read, if there is one.
pub fn member_if_any(member: Option<Option<String>>) -> (r: Option<String>)
    ensures
        r.deep_view() == text_if_any(member.deep_view()),
{
    match member {
        Some(found) => found,
        None => None,
    }
}

/// A count that was read as a signed number, as the unsigned number of
/// the same 64 bits.
pub fn member_count(member: Option<Option<i64>>) -> (r: Option<u64>)
    ensures
        r == count_of(member),
{
    match member {
        Some(Some(n)) => {
            if n >= 0 {
                Some(n as u64)
            } else {
                let below: u64 = (-(n + 1)) as u64;
                Some(u64::MAX - below)
            }
        },
        _ => None,
    }
}

/// What the system reports of the link of one interface.
#[derive(Clone, Debug, PartialEq, Eq)]
pub struct AdapterLink {
    pub name: String,
    pub description: String,
    pub status: String,
    pub mac_address: Option<String>,
    /// For how long the link has been up, as `hh:mm:ss`.
    pub duration: Option<String>,
    pub link_speed: Option<String>,
    pub bytes_sent: Option<u64>,
    pub bytes_received: Option<u64>,
}

/// Whether `link` is what the JSON object `item` says of an interface.
pub open spec fn link_matches(link: AdapterLink, item: Seq<char>) -> bool {
    &&& link.name@ == text_or(json_text_member_of(item, "Name"@), "Unknown"@)
    &&& link.description@ == text_or(json_text_member_of(item, "InterfaceDescription"@), ""@)
    &&& link.status@ == text_or(json_text_member_of(item, "Status"@), "Disabled"@)
    &&& link.mac_address.deep_view() == text_if_any(json_text_member_of(item, "MacAddress"@))
    &&& link.duration.deep_view() == text_if_any(json_text_member_of(item, "Duration"@))
    &&& link.link_speed.deep_view() == text_if_any(json_text_member_of(item, "LinkSpeed"@))
    &&& link.bytes_sent == count_of(json_signed_member_of(item, "BytesSent"@))
    &&& link.bytes_received == count_of(json_signed_member_of(item, "BytesReceived"@))
}

/// Reads what one JSON object says of an interface. A missing name reads
/// as `Unknown`, a missing status as `Disabled`.
pub fn link_from(item: &str) -> (r: AdapterLink)
    ensures
        link_matches(r, item@),
{
    AdapterLink {
        name: member_or(json_text_member(item, "Name"), "Unknown"),
        description: member_or(json_text_member(item, "InterfaceDescription"), ""),
        status: member_or(json_text_member(item, "Status"), "Disabled"),
        mac_address: member_if_any(json_text_member(item, "MacAddress")),
        duration: member_if_any(json_text_member(item, "Duration")),
        link_speed: member_if_any(json_text_member(item, "LinkSpeed")),
        bytes_sent: member_count(json_signed_member(item, "BytesSent")),
        bytes_received: member_count(json_signed_member(item, "BytesReceived")),
    }
}

/// The JSON objects of a listing, given the listing as its elements
/// where it is an array and as one document where it is one: the
/// elements of an array, the document itself where it is well formed but
/// no array, and nothing where it is not well formed.
pub open spec fn objects_of(
    listing: Seq<char>,
    items: Option<Seq<Seq<char>>>,
    well_formed: bool,
) -> Seq<Seq<char>> {
    match items {
        Some(items) => items,
        None => if well_formed {
            seq![listing]
        } else {
            Seq::<Seq<char>>::empty()
        },
    }
}

/// The JSON objects of the cleaned listing `listing`: PowerShell writes
/// one interface as an object and several as an array of objects.
pub open spec fn objects_in(listing: Seq<char>) -> Seq<Seq<char>> {
    if listing.len() == 0 {
        Seq::<Seq<char>>::empty()
    } else {
        objects_of(
            listing,
            json_items_of(listing),
            json_text_member_of(listing, "Name"@) is Some,
        )
    }
}

/// Picks the JSON objects of a listing, given the listing as its
/// elements and as one document.
pub fn objects_from(listing: String, items: Option<Vec<String>>, well_formed: bool) -> (r: Vec<
    String,
>)
    ensures
        r.deep_view() == objects_of(listing@, items.deep_view(), well_formed),
{
    match items {
        Some(items) => items,
        None => {
            let mut r: Vec<String> = Vec::new();
            if well_formed {
                r.push(listing);
            }
            proof {
                assert(r.deep_view() =~= objects_of(listing@, None, well_formed));
            }
            r
        },
    }
}

/// The JSON objects of a listing as the script wrote it.
pub fn objects(stdout: &str) -> (r: Vec<String>)
    ensures
        r.deep_view() == objects_in(cleaned(stdout@)),
{
    let listing = clean(stdout);
    if listing.as_str().unicode_len() == 0 {
        let r: Vec<String> = Vec::new();
        proof {
            assert(r.deep_view() =~= Seq::<Seq<char>>::empty());
        }
        return r;
    }
    let items = json_items(listing.as_str());
    let well_formed = json_text_member(listing.as_str(), "Name").is_some();
    objects_from(listing, items, well_formed)
}

/// Reads the listing of the interfaces: one link for each JSON object, in
/// order.
pub fn adapter_links(stdout: &str) -> (r: Vec<AdapterLink>)
    ensures
        r.len() == objects_in(cleaned(stdout@)).len(),
        forall|i: int|
            0 <= i < r.len() ==> link_matches(#[trigger] r[i], objects_in(cleaned(stdout@))[i]),
{
    let items = objects(stdout);
    let mut r: Vec<AdapterLink> = Vec::new();
    let mut i: usize = 0;
    while i < items.len()
        invariant
            i <= items.len(),
            r.len() == i,
            forall|k: int| 0 <= k < i ==> link_matches(#[trigger] r[k], items.deep_view()[k]),
        decreases items.len() - i,
    {
        let link = link_from(items[i].as_str());
        proof {
            assert(items.deep_view()[i as int] == items[i as int]@);
        }
        r.push(link);
        i += 1;
    }
    r
}

/// Tests whether the system lists an interface of the name `name`.
pub fn has_adapter(links: &Vec<AdapterLink>, name: &str) -> (r: bool)
    ensures
        r == exists|i: int| 0 <= i < links.len() && (#[trigger] links[i]).name@ == name@,
{
    let mut i: usize = 0;
    while i < links.len()
        invariant
            i <= links.len(),
            forall|k: int| 0 <= k < i ==> (#[trigger] links[k]).name@ != name@,
        decreases links.len() - i,
    {
        if same_text(links[i].name.as_str(), name) {
            return true;
        }
        i += 1;
    }
    false
}

/// The IPv4 configuration of an interface as the system reports it.
#[derive(Clone, Debug, PartialEq, Eq)]
pub struct IpConfig {
    pub is_dhcp: bool,
    pub ip_address: Option<String>,
    pub subnet_mask: Option<String>,
    pub gateway: Option<String>,
    pub dns_servers: Option<Vec<String>>,
}

/// The gateway that a text names: the text without the white space
/// around it, unless that is empty or the word `null`.
pub open spec fn gateway_named(text: Option<Seq<char>>) -> Option<Seq<char>> {
    if text is Some && trim(text.unwrap()).len() > 0 && trim(text.unwrap()) != "null"@ {
        Some(trim(text.unwrap()))
    } else {
        None
    }
}

/// The DNS servers that a text lists with commas between: none where the
/// text is blank.
pub open spec fn servers_listed(text: Option<Seq<char>>) -> Option<Seq<Seq<char>>> {
    if text is Some && trim(text.unwrap()).len() > 0 {
        Some(each_trimmed(pieces(trim(text.unwrap()), ',')))
    } else {
        None
    }
}

/// Whether a text in upper case says that DHCP is enabled.
pub open spec fn says_enabled(upper: Seq<char>) -> bool {
    has_infix(upper, "ENABLED"@)
}

/// Whether the member that tells of DHCP says that it is on: in words
/// where it is a text, in upper case, and as the number 1 where it is a
/// number.
pub open spec fn dhcp_flag(upper: Option<Seq<char>>, number: Option<Option<u64>>) -> bool {
    match upper {
        Some(words) => says_enabled(words),
        None => number == Some(Some(1u64)),
    }
}

/// The subnet mask of the prefix length that was read, where one was
/// read; of its 64 bits only the low 8 count.
pub open spec fn mask_read(prefix: Option<Option<u64>>) -> Option<Seq<char>> {
    match prefix {
        Some(Some(p)) => mask_of_prefix((p % 256) as nat),
        _ => None,
    }
}

/// The gateway that a text names.
pub fn gateway_from(text: Option<&str>) -> (r: Option<String>)
    ensures
        r.deep_view() == gateway_named(text.deep_view()),
{
    match text {
        Some(text) => {
            let name = trimmed(text);
            if name.as_str().unicode_len() > 0 && !same_text(name.as_str(), "null") {
                Some(name)
            } else {
                None
            }
        },
        None => None,
    }
}

/// The DNS servers that a text lists with commas between.
pub fn servers_from(text: Option<&str>) -> (r: Option<Vec<String>>)
    ensures
        r.deep_view() == servers_listed(text.deep_view()),
{
    match text {
        Some(text) => {
            let list = trimmed(text);
            if list.as_str().unicode_len() == 0 {
                return None;
            }
            Some(split_trimmed(list.as_str(), ','))
        },
        None => None,
    }
}

/// Tests whether the member that tells of DHCP says that it is on.
pub fn dhcp_from(upper: Option<&str>, number: Option<Option<u64>>) -> (r: bool)
    ensures
        r == dhcp_flag(upper.deep_view(), number),
{
    match upper {
        Some(words) => has(words, "ENABLED"),
        None => match number {
            Some(Some(n)) => n == 1,
            _ => false,
        },
    }
}

/// The subnet mask of the prefix length that was read.
pub fn mask_from(prefix: Option<Option<u64>>) -> (r: Option<String>)
    ensures
        r.deep_view() == mask_read(prefix),
{
    match prefix {
        Some(Some(p)) => prefix_to_subnet((p % 256) as u8),
        _ => None,
    }
}

/// The text of the member that tells of DHCP, in upper case, where the
/// member is a text.
pub open spec fn dhcp_words(item: Seq<char>) -> Option<Seq<char>> {
    match text_if_any(json_text_member_of(item, "Dhcp"@)) {
        Some(words) => Some(uppercase_of(words)),
        None => None,
    }
}

/// Whether `config` is what the JSON object `item` says of the IPv4
/// configuration of an interface.
pub open spec fn config_matches(config: IpConfig, item: Seq<char>) -> bool {
    &&& config.is_dhcp == dhcp_flag(dhcp_words(item), json_unsigned_member_of(item, "Dhcp"@))
    &&& config.ip_address.deep_view() == text_if_any(json_text_member_of(item, "IP"@))
    &&& config.subnet_mask.deep_view() == mask_read(json_unsigned_member_of(item, "Prefix"@))
    &&& config.gateway.deep_view() == gateway_named(
        text_if_any(json_text_member_of(item, "Gateway"@)),
    )
    &&& config.dns_servers.deep_view() == servers_listed(
        text_if_any(json_text_member_of(item, "DNS"@)),
    )
}

/// The name under which the JSON object `item` lists a configuration;
/// empty where it has none.
pub open spec fn listed_name(item: Seq<char>) -> Seq<char> {
    text_or(json_text_member_of(item, "Name"@), ""@)
}

/// A text borrowed, where there is one.
pub fn borrowed(text: &Option<String>) -> (r: Option<&str>)
    ensures
        r.deep_view() == text.deep_view(),
{
    match text {
        Some(text) => Some(text.as_str()),
        None => None,
    }
}

/// Reads what one JSON object says of the IPv4 configuration of an
/// interface.
pub fn config_from(item: &str) -> (r: IpConfig)
    ensures
        config_matches(r, item@),
{
    let words = match member_if_any(json_text_member(item, "Dhcp")) {
        Some(words) => Some(words.as_str().to_uppercase()),
        None => None,
    };
    let gateway = member_if_any(json_text_member(item, "Gateway"));
    let dns = member_if_any(json_text_member(item, "DNS"));
    IpConfig {
        is_dhcp: dhcp_from(borrowed(&words), json_unsigned_member(item, "Dhcp")),
        ip_address: member_if_any(json_text_member(item, "IP")),
        subnet_mask: mask_from(json_unsigned_member(item, "Prefix")),
        gateway: gateway_from(borrowed(&gateway)),
        dns_servers: servers_from(borrowed(&dns)),
    }
}

/// The entries of `items` that list a configuration under a name, in
/// order.
pub open spec fn named(items: Seq<Seq<char>>) -> Seq<Seq<char>>
    decreases items.len(),
{
    if items.len() == 0 {
        Seq::<Seq<char>>::empty()
    } else if listed_name(items.last()).len() > 0 {
        named(items.drop_last()).push(items.last())
    } else {
        named(items.drop_last())
    }
}

/// The JSON objects of the cleaned listing `listing` of configurations:
/// the elements of an array, and nothing where the listing is no array.
pub open spec fn entries_in(listing: Seq<char>) -> Seq<Seq<char>> {
    if listing.len() == 0 {
        Seq::<Seq<char>>::empty()
    } else {
        match json_items_of(listing) {
            Some(items) => named(items),
            None => Seq::<Seq<char>>::empty(),
        }
    }
}

/// The configurations of a listing, given its elements: one for each
/// element that has a name, entered under that name, in order.
pub fn configs_from(items: &Vec<String>) -> (r: Vec<(String, IpConfig)>)
    ensures
        r.len() == named(items.deep_view()).len(),
        forall|i: int|
            0 <= i < r.len() ==> (#[trigger] r[i]).0@ == listed_name(named(items.deep_view())[i])
                && config_matches(r[i].1, named(items.deep_view())[i]),
{
    let mut r: Vec<(String, IpConfig)> = Vec::new();
    let mut i: usize = 0;
    while i < items.len()
        invariant
            i <= items.len(),
            r.len() == named(items.deep_view().take(i as int)).len(),
            forall|k: int|
                0 <= k < r.len() ==> (#[trigger] r[k]).0@ == listed_name(
                    named(items.deep_view().take(i as int))[k],
                ) && config_matches(r[k].1, named(items.deep_view().take(i as int))[k]),
        decreases items.len() - i,
    {
        let ghost upto = items.deep_view().take(i + 1);
        proof {
            assert(upto.drop_last() == items.deep_view().take(i as int));
            assert(upto.last() == items[i as int]@);
        }
        let name = member_or(json_text_member(items[i].as_str(), "Name"), "");
        if name.as_str().unicode_len() > 0 {
            let config = config_from(items[i].as_str());
            r.push((name, config));
        }
        i += 1;
    }
    proof {
        assert(items.deep_view().take(items.len() as int) == items.deep_view());
    }
    r
}

/// Reads the listing of the IPv4 configurations: one for each element of
/// the array that has a name, entered under that name, in order. A
/// listing that is no array reads as empty.
pub fn get_all_ip_configs(stdout: &str) -> (r: Vec<(String, IpConfig)>)
    ensures
        r.len() == entries_in(cleaned(stdout@)).len(),
        forall|i: int|
            0 <= i < r.len() ==> (#[trigger] r[i]).0@ == listed_name(
                entries_in(cleaned(stdout@))[i],
            ) && config_matches(r[i].1, entries_in(cleaned(stdout@))[i]),
{
    let listing = clean(stdout);
    if listing.as_str().unicode_len() == 0 {
        return Vec::new();
    }
    match json_items(listing.as_str()) {
        Some(items) => configs_from(&items),
        None => Vec::new(),
    }
}

/// The prefix length on the first of `lines` that is a JSON object with
/// such a member.
pub open spec fn first_prefix(lines: Seq<Seq<char>>) -> Option<Option<u64>>
    decreases lines.len(),
{
    if lines.len() == 0 {
        None
    } else {
        match json_unsigned_member_of(lines.first(), "Prefix"@) {
            Some(Some(p)) => Some(Some(p)),
            _ => first_prefix(lines.drop_first()),
        }
    }
}

/// Whether an answer holds anything to read: it is neither empty nor the
/// word `null`.
pub open spec fn says_something(answer: Seq<char>) -> bool {
    answer.len() > 0 && answer != "null"@
}

/// The address in the answer of the script that reads the address and
/// the prefix length of one interface.
pub open spec fn address_answered(answer: Seq<char>) -> Option<Seq<char>> {
    if says_something(answer) {
        text_if_any(json_text_member_of(answer, "IP"@))
    } else {
        None
    }
}

/// Whether `config` is what the answers of the four scripts that read
/// one interface say of it; an answer is missing where its script could
/// not be run.
pub open spec fn answers_match(
    config: IpConfig,
    ip: Option<Seq<char>>,
    gateway: Option<Seq<char>>,
    dhcp: Option<Seq<char>>,
    dns: Option<Seq<char>>,
) -> bool {
    match ip {
        None => {
            &&& !config.is_dhcp
            &&& config.ip_address is None
            &&& config.subnet_mask is None
            &&& config.gateway is None
            &&& config.dns_servers is None
        },
        Some(ip) => {
            &&& config.ip_address.deep_view() == address_answered(trim(ip))
            &&& config.subnet_mask.deep_view() == mask_read(first_prefix(pieces(trim(ip), '\n')))
            &&& config.gateway.deep_view() == gateway_named(gateway)
            &&& config.is_dhcp == (dhcp is Some && says_enabled(uppercase_of(trim(dhcp.unwrap()))))
            &&& config.dns_servers.deep_view() == servers_listed(dns)
        },
    }
}

/// The prefix length on the first of `lines` that is a JSON object with
/// such a member.
pub fn prefix_from(lines: &Vec<String>) -> (r: Option<Option<u64>>)
    ensures
        r == first_prefix(lines.deep_view()),
{
    let mut i: usize = 0;
    proof {
        assert(lines.deep_view().subrange(0, lines.len() as int) == lines.deep_view());
    }
    while i < lines.len()
        invariant
            i <= lines.len(),
            first_prefix(lines.deep_view()) == first_prefix(
                lines.deep_view().subrange(i as int, lines.len() as int),
            ),
        decreases lines.len() - i,
    {
        let ghost rest = lines.deep_view().subrange(i as int, lines.len() as int);
        proof {
            assert(rest.first() == lines[i as int]@);
            assert(rest.drop_first() == lines.deep_view().subrange(i + 1, lines.len() as int));
        }
        match json_unsigned_member(lines[i].as_str(), "Prefix") {
            Some(Some(p)) => {
                return Some(Some(p));
            },
            _ => {},
        }
        i += 1;
    }
    None
}

/// Reads the answers of the four scripts that read one interface: its
/// address and prefix length, its gateway, whether it uses DHCP, and its
/// DNS servers. Where the first could not be run nothing is known of
/// the interface.
pub fn get_ip_config(
    ip: Option<&str>,
    gateway: Option<&str>,
    dhcp: Option<&str>,
    dns: Option<&str>,
) -> (r: IpConfig)
    ensures
        answers_match(r, ip.deep_view(), gateway.deep_view(), dhcp.deep_view(), dns.deep_view()),
{
    let answer = match ip {
        Some(answer) => trimmed(answer),
        None => {
            return IpConfig {
                is_dhcp: false,
                ip_address: None,
                subnet_mask: None,
                gateway: None,
                dns_servers: None,
            };
        },
    };
    let ip_address = if answer.as_str().unicode_len() > 0 && !same_text(answer.as_str(), "null") {
        member_if_any(json_text_member(answer.as_str(), "IP"))
    } else {
        None
    };
    let lines = split_on(answer.as_str(), '\n');
    let subnet_mask = mask_from(prefix_from(&lines));
    let is_dhcp = match dhcp {
        Some(words) => {
            let upper = trimmed(words).as_str().to_uppercase();
            has(upper.as_str(), "ENABLED")
        },
        None => false,
    };
    IpConfig {
        is_dhcp,
        ip_address,
        subnet_mask,
        gateway: gateway_from(gateway),
        dns_servers: servers_from(dns),
    }
}

/// The place of the configuration that was entered last under `name`.
pub open spec fn last_entry(configs: Seq<(String, IpConfig)>, name: Seq<char>) -> Option<int>
    decreases configs.len(),
{
    if configs.len() == 0 {
        None
    } else if configs.last().0@ == name {
        Some(configs.len() - 1)
    } else {
        last_entry(configs.drop_last(), name)
    }
}

/// Finds the configuration that was entered last under `name`: a later
/// entry replaces an earlier one of the same name.
pub fn find_config<'a>(configs: &'a Vec<(String, IpConfig)>, name: &str) -> (r: Option<
    &'a IpConfig,
>)
    ensures
        match last_entry(configs@, name@) {
            Some(at) => 0 <= at < configs.len() && r == Some(&configs[at].1),
            None => r is None,
        },
{
    let mut i: usize = configs.len();
    proof {
        assert(configs@.take(configs.len() as int) == configs@);
    }
    while i > 0
        invariant
            i <= configs.len(),
            last_entry(configs@, name@) == last_entry(configs@.take(i as int), name@),
        decreases i,
    {
        let ghost upto = configs@.take(i as int);
        proof {
            assert(upto.last() == configs[i - 1]);
            assert(upto.drop_last() == configs@.take(i - 1));
        }
        if same_text(configs[i - 1].0.as_str(), name) {
            return Some(&configs[i - 1].1);
        }
        i -= 1;
    }
    None
}

/// What is known of one interface.
#[derive(Clone, Debug, PartialEq, Eq)]
pub struct NetworkAdapter {
    pub name: String,
    /// `"wifi"`, `"ethernet"`, `"bluetooth"`, `"vpn"` or `"other"`.
    pub network_type: String,
    pub is_wireless: bool,
    pub is_enabled: bool,
    pub is_dhcp: bool,
    pub ip_address: Option<String>,
    pub subnet_mask: Option<String>,
    pub gateway: Option<String>,
    pub dns_servers: Option<Vec<String>>,
    pub mac_address: Option<String>,
    /// For how long the link has been up, as `hh:mm:ss`.
    pub duration: Option<String>,
    pub link_speed: Option<String>,
    pub bytes_sent: Option<u64>,
    pub bytes_received: Option<u64>,
}

/// The kind of the interface that `link` tells of.
pub open spec fn link_kind(link: AdapterLink) -> NetworkKind {
    kind_of(lowercase_of(link.description@), lowercase_of(link.name@))
}

/// Puts together what is known of one interface from what the system
/// says of its link and of its configuration. The interface is enabled
/// where its status is `Up`.
pub fn adapter_from(link: &AdapterLink, config: IpConfig) -> (r: NetworkAdapter)
    ensures
        r.name == link.name,
        r.network_type@ == kind_label(link_kind(*link)),
        r.is_wireless == link_kind(*link).is_wireless(),
        r.is_enabled == (link.status@ == "Up"@),
        r.is_dhcp == config.is_dhcp,
        r.ip_address == config.ip_address,
        r.subnet_mask == config.subnet_mask,
        r.gateway == config.gateway,
        r.dns_servers == config.dns_servers,
        r.mac_address == link.mac_address,
        r.duration == link.duration,
        r.link_speed == link.link_speed,
        r.bytes_sent == link.bytes_sent,
        r.bytes_received == link.bytes_received,
{
    let kind = network_kind(link.description.as_str(), link.name.as_str());
    let is_enabled = same_text(link.status.as_str(), "Up");
    NetworkAdapter {
        name: link.name.clone(),
        network_type: kind.label().to_owned(),
        is_wireless: kind.is_wireless(),
        is_enabled,
        is_dhcp: config.is_dhcp,
        ip_address: config.ip_address,
        subnet_mask: config.subnet_mask,
        gateway: config.gateway,
        dns_servers: config.dns_servers,
        mac_address: copy_text(&link.mac_address),
        duration: copy_text(&link.duration),
        link_speed: copy_text(&link.link_speed),
        bytes_sent: link.bytes_sent,
        bytes_received: link.bytes_received,
    }
}


/// The configuration of an interface of which nothing is known.
pub fn unknown_config() -> (r: IpConfig)
    ensures
        !r.is_dhcp,
        r.ip_address is None,
        r.subnet_mask is None,
        r.gateway is None,
        r.dns_servers is None,
{
    IpConfig {
        is_dhcp: false,
        ip_address: None,
        subnet_mask: None,
        gateway: None,
        dns_servers: None,
    }
}

impl IpConfig {
    /// A copy of the configuration.
    pub fn duplicate(&self) -> (r: IpConfig)
        ensures
            r.is_dhcp == self.is_dhcp,
            r.ip_address.deep_view() == self.ip_address.deep_view(),
            r.subnet_mask.deep_view() == self.subnet_mask.deep_view(),
            r.gateway.deep_view() == self.gateway.deep_view(),
            r.dns_servers.deep_view() == self.dns_servers.deep_view(),
    {
        IpConfig {
            is_dhcp: self.is_dhcp,
            ip_address: copy_text(&self.ip_address),
            subnet_mask: copy_text(&self.subnet_mask),
            gateway: copy_text(&self.gateway),
            dns_servers: match &self.dns_servers {
                Some(servers) => Some(copy_texts(servers)),
                None => None,
            },
        }
    }
}

} // verus!
