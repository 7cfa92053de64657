//! The proxy settings of the system, as they stand in its registry.

use vstd::prelude::*;
use crate::text::{each_trimmed, join_with, joined, pieces, split_trimmed};

verus! {

/// The key under which the proxy settings of the current user stand.
pub const SETTINGS_KEY: &'static str =
    "Software\\Microsoft\\Windows\\CurrentVersion\\Internet Settings";

/// The value that tells whether the proxy is used.
pub const ENABLE_VALUE: &'static str = "ProxyEnable";

/// The value that names the proxy server.
pub const SERVER_VALUE: &'static str = "ProxyServer";

/// The value that lists the hosts that go around the proxy.
pub const OVERRIDE_VALUE: &'static str = "ProxyOverride";

/// The proxy settings.
#[derive(Clone, Debug, PartialEq, Eq)]
pub struct ProxyConfig {
    pub enabled: bool,
    pub server: String,
    /// The hosts that go around the proxy.
    pub bypass: Vec<String>,
}

/// The hosts that the text `listed` lists with semicolons between, each
/// without the white space around it; none where the text is empty.
pub open spec fn bypass_of(listed: Seq<char>) -> Seq<Seq<char>> {
    if listed.len() == 0 {
        Seq::<Seq<char>>::empty()
    } else {
        each_trimmed(pieces(listed, ';'))
    }
}

/// A text that was read, or the empty text where it is missing.
pub open spec fn or_empty(text: Option<Seq<char>>) -> Seq<char> {
    match text {
        Some(text) => text,
        None => Seq::<char>::empty(),
    }
}

/// Puts the proxy settings together from the three values as they were
/// read; a value that is missing counts as zero or as empty.
pub fn get_proxy(
    proxy_enable: Option<u32>,
    proxy_server: Option<String>,
    proxy_override: Option<String>,
) -> (r: ProxyConfig)
    ensures
        r.enabled == (proxy_enable is Some && proxy_enable.unwrap() != 0),
        r.server@ == or_empty(proxy_server.deep_view()),
        r.bypass.deep_view() == bypass_of(or_empty(proxy_override.deep_view())),
{
    let enabled = match proxy_enable {
        Some(flag) => flag != 0,
        None => false,
    };
    let server = match proxy_server {
        Some(server) => server,
        None => String::new(),
    };
    let listed = match proxy_override {
        Some(listed) => listed,
        None => String::new(),
    };
    let bypass = if listed.as_str().unicode_len() == 0 {
        let none: Vec<String> = Vec::new();
        proof {
            assert(none.deep_view() =~= Seq::<Seq<char>>::empty());
        }
        none
    } else {
        split_trimmed(listed.as_str(), ';')
    };
    ProxyConfig { enabled, server, bypass }
}

/// What is written to the registry to make the proxy settings take
/// effect.
#[derive(Clone, Debug, PartialEq, Eq)]
pub struct ProxyValues {
    /// The new value of `ProxyEnable`.
    pub enable: u32,
    /// The new values of `ProxyServer` and `ProxyOverride`; where there
    /// are none, the two stay as they are.
    pub server_and_override: Option<(String, String)>,
}

/// The values to write for the given settings. The flag is always
/// written; the server and the list of hosts that go around it, with
/// semicolons between, only where the proxy is switched on.
pub fn set_proxy(enabled: bool, server: String, bypass: Vec<String>) -> (r: ProxyValues)
    ensures
        r.enable == if enabled {
            1u32
        } else {
            0u32
        },
        !enabled ==> r.server_and_override is None,
        enabled ==> (r.server_and_override matches Some(pair) && pair.0@ == server@ && pair.1@
            == joined(bypass.deep_view(), ";"@)),
{
    if enabled {
        let listed = join_with(&bypass, ";");
        ProxyValues { enable: 1, server_and_override: Some((server, listed)) }
    } else {
        ProxyValues { enable: 0, server_and_override: None }
    }
}

} // verus!
