//! The command lines with which the actions of the engine are carried
//! out on Windows: PowerShell for the configuration and for reading the
//! interface, `ping` for the checks that are bound to an interface.
//!
//! An interface is named inside single quotes, so every single quote in
//! its name is written twice.

use vstd::prelude::*;
use crate::backend::{Action, ActionView, Command, CommandView};
use crate::text::{
    concat, decimal, decimal_string, glue, join_with, joined, quoted, quotes_doubled,
};

verus! {

/// Looks the interface up; its name follows.
pub const FIND: &'static str = "$adapter = Get-NetAdapter -Name '";

/// Ends the lookup of an interface that must exist.
pub const OR_STOP: &'static str = "' -ErrorAction Stop; ";

/// Ends the lookup of an interface that may be missing.
pub const OR_PASS: &'static str = "' -ErrorAction SilentlyContinue; ";

/// Removes the default routes of the interface, if it has any.
pub const REMOVE_ROUTE: &'static str =
    "if ($adapter) { $routes = Get-NetRoute -InterfaceIndex $adapter.ifIndex -DestinationPrefix '0.0.0.0/0' -ErrorAction SilentlyContinue; if ($routes) { $routes | Remove-NetRoute -Confirm:$false -ErrorAction SilentlyContinue } }";

/// Removes the addresses of the interface, if it has any.
pub const REMOVE_ADDRESS: &'static str =
    "if ($adapter) { Remove-NetIPAddress -InterfaceIndex $adapter.ifIndex -Confirm:$false -ErrorAction SilentlyContinue }";

/// Binds an address; the address follows.
pub const ASSIGN_ADDRESS: &'static str =
    "New-NetIPAddress -InterfaceIndex $adapter.ifIndex -IPAddress ";

/// Goes between the address and its prefix length.
pub const WITH_PREFIX: &'static str = " -PrefixLength ";

/// Ends a command that must succeed.
pub const MUST_SUCCEED: &'static str = " -ErrorAction Stop";

/// Replaces the default route where there is one; the next hop follows.
pub const REPLACE_ROUTE: &'static str =
    "$existing = Get-NetRoute -InterfaceIndex $adapter.ifIndex -DestinationPrefix '0.0.0.0/0' -ErrorAction SilentlyContinue | Select-Object -First 1; if ($existing) { Set-NetRoute -InterfaceIndex $adapter.ifIndex -DestinationPrefix '0.0.0.0/0' -NextHop ";

/// Creates the default route where there is none; the next hop follows.
pub const OR_CREATE_ROUTE: &'static str =
    " -ErrorAction Stop } else { New-NetRoute -InterfaceIndex $adapter.ifIndex -DestinationPrefix '0.0.0.0/0' -NextHop ";

/// Ends the command that sets the default route.
pub const ROUTE_SET: &'static str = " -ErrorAction Stop }";

/// Switches DHCP on.
pub const ENABLE_DHCP: &'static str =
    "Set-NetIPInterface -InterfaceIndex $adapter.ifIndex -Dhcp Enabled -ErrorAction Stop";

/// Switches DHCP off.
pub const DISABLE_DHCP: &'static str =
    "Set-NetIPInterface -InterfaceIndex $adapter.ifIndex -Dhcp Disabled -ErrorAction Stop";

/// Sets the DNS servers; the servers follow, with commas between.
pub const SET_DNS: &'static str =
    "Set-DnsClientServerAddress -InterfaceIndex $adapter.ifIndex -ServerAddresses ";

/// Goes back to the DNS servers of the lease.
pub const RESET_DNS: &'static str =
    "if ($adapter) { Set-DnsClientServerAddress -InterfaceIndex $adapter.ifIndex -ResetServerAddresses -ErrorAction SilentlyContinue }";

/// Names the interface whose lease is to be renewed; its name follows.
pub const RENEW_OF: &'static str = "$name = '";

/// Renews the lease of the interface that was named.
pub const RENEW: &'static str = "'; ipconfig /renew \"$name\" | Out-Null";

/// Switches the interface off; its name follows once more.
pub const DISABLE_ADAPTER: &'static str = "Disable-NetAdapter -Name '";

/// Switches the interface on; its name follows once more.
pub const ENABLE_ADAPTER: &'static str = "Enable-NetAdapter -Name '";

/// Ends the command that switches an interface on or off.
pub const UNASKED: &'static str = "' -Confirm:$false -ErrorAction Stop";

/// Begins the script that reads the address and the gateway of an
/// interface; its name follows.
pub const READ_ADDRESS_OF: &'static str =
    "[Console]::OutputEncoding = [System.Text.Encoding]::UTF8; $adapter = Get-NetAdapter -Name '";

/// Reads the address and the gateway of the interface that was looked
/// up, and writes them as one JSON object with the members `ip` and `gw`.
pub const READ_ADDRESS: &'static str =
    "' -ErrorAction SilentlyContinue; if (-not $adapter) { '{\"ip\":null,\"gw\":null}' } else { $ip = Get-NetIPAddress -InterfaceIndex $adapter.ifIndex -AddressFamily IPv4 -ErrorAction SilentlyContinue | Select-Object -First 1; $route = Get-NetRoute -InterfaceIndex $adapter.ifIndex -DestinationPrefix '0.0.0.0/0' -ErrorAction SilentlyContinue | Select-Object -First 1; $obj = @{ ip = if ($ip) { $ip.IPAddress } else { $null }; gw = if ($route) { $route.NextHop } else { $null } }; $obj | ConvertTo-Json -Compress }";

/// Begins the check that is not bound to an interface; the host follows.
pub const TEST_CONNECTION: &'static str = "$result = Test-Connection -ComputerName '";

/// Goes between the host and the seconds to wait for it.
pub const WITHIN: &'static str = "' -Count 1 -Quiet -TimeoutSeconds ";

/// Reports the check in words.
pub const REPORT: &'static str =
    "; if ($result) { Write-Output 'SUCCESS' } else { Write-Output 'FAILED' }";

/// Lists the interfaces of the machine with what is known of their links,
/// as JSON.
pub const LIST_ADAPTERS: &'static str =
    "[Console]::OutputEncoding = [System.Text.Encoding]::UTF8; $adapters = Get-NetAdapter; $stats = Get-NetAdapterStatistics; $result = @(); foreach ($adapter in $adapters) { $stat = $stats | Where-Object { $_.Name -eq $adapter.Name } | Select-Object -First 1; $duration = $null; if ($adapter.Status -eq 'Up' -and $adapter.LinkUpTime) { $ts = New-TimeSpan -Start $adapter.LinkUpTime -End (Get-Date); $duration = $ts.ToString('hh\\:mm\\:ss'); } $obj = [PSCustomObject]@{ Name = $adapter.Name; InterfaceDescription = $adapter.InterfaceDescription; Status = $adapter.Status; MacAddress = $adapter.MacAddress; LinkSpeed = $adapter.LinkSpeed; Duration = $duration; BytesSent = if ($stat) { [int64]$stat.SentBytes } else { $null }; BytesReceived = if ($stat) { [int64]$stat.ReceivedBytes } else { $null }; }; $result += $obj; }; $result | ConvertTo-Json -Depth 10";

/// Lists the IPv4 configuration of every interface of the machine, as
/// JSON.
pub const LIST_CONFIGURATIONS: &'static str =
    "[Console]::OutputEncoding = [System.Text.Encoding]::UTF8; $adapters = Get-NetAdapter; $result = @(); foreach ($adapter in $adapters) { $ip = Get-NetIPAddress -InterfaceIndex $adapter.ifIndex -AddressFamily IPv4 -ErrorAction SilentlyContinue | Select-Object -First 1; $route = Get-NetRoute -InterfaceIndex $adapter.ifIndex -DestinationPrefix '0.0.0.0/0' -ErrorAction SilentlyContinue | Select-Object -First 1; $interface = Get-NetIPInterface -InterfaceIndex $adapter.ifIndex -AddressFamily IPv4 -ErrorAction SilentlyContinue; $dns = Get-DnsClientServerAddress -InterfaceIndex $adapter.ifIndex -AddressFamily IPv4 -ErrorAction SilentlyContinue; $dhcpValue = 0; if ($interface) { $dhcpValue = [int]$interface.Dhcp }; $obj = @{ Name = $adapter.Name; IP = if ($ip) { $ip.IPAddress } else { $null }; Prefix = if ($ip) { $ip.PrefixLength } else { $null }; Gateway = if ($route) { $route.NextHop } else { $null }; Dhcp = $dhcpValue; DNS = if ($dns -and $dns.ServerAddresses) { ($dns.ServerAddresses -join ',') } else { '' } }; $result += $obj }; $result | ConvertTo-Json -Depth 10";

/// Reads the address and the prefix length of the interface that was
/// looked up, as one JSON object, or writes `null`.
pub const READ_IP: &'static str =
    "if ($adapter) { $ipconfig = Get-NetIPAddress -InterfaceIndex $adapter.ifIndex -AddressFamily IPv4 -ErrorAction SilentlyContinue | Select-Object -First 1; if ($ipconfig) { @{IP=$ipconfig.IPAddress; Prefix=$ipconfig.PrefixLength} | ConvertTo-Json -Compress } else { 'null' } } else { 'null' }";

/// Reads the next hop of the default route of the interface that was
/// looked up, or writes `null`.
pub const READ_GATEWAY: &'static str =
    "if ($adapter) { $route = Get-NetRoute -InterfaceIndex $adapter.ifIndex -DestinationPrefix '0.0.0.0/0' -ErrorAction SilentlyContinue | Select-Object -First 1; if ($route) { $route.NextHop } else { 'null' } } else { 'null' }";

/// Reads whether the interface that was looked up uses DHCP.
pub const READ_DHCP: &'static str =
    "if ($adapter) { $ipconfig = Get-NetIPConfiguration -InterfaceIndex $adapter.ifIndex -ErrorAction SilentlyContinue; if ($ipconfig -and $ipconfig.NetIPv4Interface) { $ipconfig.NetIPv4Interface.Dhcp } else { 'Disabled' } } else { 'Disabled' }";

/// Reads the DNS servers of the interface that was looked up, with
/// commas between.
pub const READ_DNS: &'static str =
    "if ($adapter) { $dns = Get-DnsClientServerAddress -InterfaceIndex $adapter.ifIndex -AddressFamily IPv4 -ErrorAction SilentlyContinue; if ($dns -and $dns.ServerAddresses) { $dns.ServerAddresses -join ',' } else { '' } } else { '' }";

/// The script that does `task` to the interface `adapter`, which must
/// exist.
pub open spec fn on_adapter(adapter: Seq<char>, task: Seq<char>) -> Seq<char> {
    concat(seq![FIND@, quotes_doubled(adapter), OR_STOP@, task])
}

/// The script that does `task` to the interface `adapter`, if it exists.
pub open spec fn on_adapter_if_any(adapter: Seq<char>, task: Seq<char>) -> Seq<char> {
    concat(seq![FIND@, quotes_doubled(adapter), OR_PASS@, task])
}

/// The servers of a list as they stand in a script: with commas between.
pub open spec fn server_list(servers: Seq<Seq<char>>) -> Seq<char> {
    quotes_doubled(joined(servers, ","@))
}

/// The task that binds the address `ip` with the prefix length `prefix`.
pub open spec fn assign_task(ip: Seq<char>, prefix: u8) -> Seq<char> {
    concat(seq![ASSIGN_ADDRESS@, ip, WITH_PREFIX@, decimal(prefix as nat), MUST_SUCCEED@])
}

/// The task that makes `gateway` the next hop of the default route.
pub open spec fn gateway_task(gateway: Seq<char>) -> Seq<char> {
    concat(seq![REPLACE_ROUTE@, gateway, OR_CREATE_ROUTE@, gateway, ROUTE_SET@])
}

/// The task that sets the DNS servers `servers`.
pub open spec fn dns_task(servers: Seq<Seq<char>>) -> Seq<char> {
    concat(seq![SET_DNS@, server_list(servers), MUST_SUCCEED@])
}

/// The script that carries out `command` on the interface `adapter`.
pub open spec fn command_script(adapter: Seq<char>, command: CommandView) -> Seq<char> {
    match command {
        CommandView::RemoveDefaultRoute => on_adapter_if_any(adapter, REMOVE_ROUTE@),
        CommandView::RemoveAddress => on_adapter_if_any(adapter, REMOVE_ADDRESS@),
        CommandView::AssignAddress { ip, prefix } => on_adapter(adapter, assign_task(ip, prefix)),
        CommandView::SetDefaultGateway { gateway } => on_adapter(adapter, gateway_task(gateway)),
        CommandView::EnableDhcp => on_adapter(adapter, ENABLE_DHCP@),
        CommandView::DisableDhcp => on_adapter(adapter, DISABLE_DHCP@),
        CommandView::SetDns { servers } => on_adapter(adapter, dns_task(servers)),
        CommandView::ResetDns => on_adapter_if_any(adapter, RESET_DNS@),
        CommandView::RenewLease => concat(seq![RENEW_OF@, quotes_doubled(adapter), RENEW@]),
        CommandView::EnableAdapter => switch_script(adapter, true),
        CommandView::DisableAdapter => switch_script(adapter, false),
    }
}

/// The script that switches the interface `adapter` on or off.
pub open spec fn switch_script(adapter: Seq<char>, on: bool) -> Seq<char> {
    on_adapter(
        adapter,
        concat(
            seq![
                if on {
                    ENABLE_ADAPTER@
                } else {
                    DISABLE_ADAPTER@
                },
                quotes_doubled(adapter),
                UNASKED@,
            ],
        ),
    )
}

/// The script that reads the address and the gateway of the interface
/// `adapter`.
pub open spec fn observe_script(adapter: Seq<char>) -> Seq<char> {
    concat(seq![READ_ADDRESS_OF@, quotes_doubled(adapter), READ_ADDRESS@])
}

/// The script that checks the host `target` from wherever the system
/// routes it, with `timeout_secs` seconds for the reply.
pub open spec fn free_probe_script(target: Seq<char>, timeout_secs: u64) -> Seq<char> {
    concat(
        seq![
            TEST_CONNECTION@,
            quotes_doubled(target),
            WITHIN@,
            decimal(timeout_secs as nat),
            REPORT@,
        ],
    )
}

/// The script that does `task` to the interface `adapter`, which must
/// exist.
pub fn script_on(adapter: &str, task: &str) -> (r: String)
    ensures
        r@ == on_adapter(adapter@, task@),
{
    let name = quoted(adapter);
    let parts = vec![FIND, name.as_str(), OR_STOP, task];
    proof {
        assert(parts.deep_view() =~= seq![FIND@, quotes_doubled(adapter@), OR_STOP@, task@]);
    }
    glue(&parts)
}

/// The script that does `task` to the interface `adapter`, if it exists.
pub fn script_on_if_any(adapter: &str, task: &str) -> (r: String)
    ensures
        r@ == on_adapter_if_any(adapter@, task@),
{
    let name = quoted(adapter);
    let parts = vec![FIND, name.as_str(), OR_PASS, task];
    proof {
        assert(parts.deep_view() =~= seq![FIND@, quotes_doubled(adapter@), OR_PASS@, task@]);
    }
    glue(&parts)
}

/// The script that carries out `command` on the interface `adapter`.
pub fn script_for(adapter: &str, command: &Command) -> (r: String)
    ensures
        r@ == command_script(adapter@, command@),
{
    match command {
        Command::RemoveDefaultRoute => script_on_if_any(adapter, REMOVE_ROUTE),
        Command::RemoveAddress => script_on_if_any(adapter, REMOVE_ADDRESS),
        Command::AssignAddress { ip, prefix } => {
            let length = decimal_string(*prefix as u64);
            let parts = vec![
                ASSIGN_ADDRESS,
                ip.as_str(),
                WITH_PREFIX,
                length.as_str(),
                MUST_SUCCEED,
            ];
            proof {
                assert(parts.deep_view() =~= seq![
                    ASSIGN_ADDRESS@,
                    ip@,
                    WITH_PREFIX@,
                    decimal(*prefix as nat),
                    MUST_SUCCEED@,
                ]);
            }
            let task = glue(&parts);
            script_on(adapter, task.as_str())
        },
        Command::SetDefaultGateway { gateway } => {
            let parts = vec![
                REPLACE_ROUTE,
                gateway.as_str(),
                OR_CREATE_ROUTE,
                gateway.as_str(),
                ROUTE_SET,
            ];
            proof {
                assert(parts.deep_view() =~= seq![
                    REPLACE_ROUTE@,
                    gateway@,
                    OR_CREATE_ROUTE@,
                    gateway@,
                    ROUTE_SET@,
                ]);
            }
            let task = glue(&parts);
            script_on(adapter, task.as_str())
        },
        Command::EnableDhcp => script_on(adapter, ENABLE_DHCP),
        Command::DisableDhcp => script_on(adapter, DISABLE_DHCP),
        Command::SetDns { servers } => {
            let list = join_with(servers, ",");
            let safe = quoted(list.as_str());
            let parts = vec![SET_DNS, safe.as_str(), MUST_SUCCEED];
            proof {
                assert(parts.deep_view() =~= seq![
                    SET_DNS@,
                    server_list(servers.deep_view()),
                    MUST_SUCCEED@,
                ]);
            }
            let task = glue(&parts);
            script_on(adapter, task.as_str())
        },
        Command::ResetDns => script_on_if_any(adapter, RESET_DNS),
        Command::RenewLease => {
            let name = quoted(adapter);
            let parts = vec![RENEW_OF, name.as_str(), RENEW];
            proof {
                assert(parts.deep_view() =~= seq![RENEW_OF@, quotes_doubled(adapter@), RENEW@]);
            }
            glue(&parts)
        },
        Command::EnableAdapter => switch_adapter(adapter, true),
        Command::DisableAdapter => switch_adapter(adapter, false),
    }
}

/// The script that switches the interface `adapter` on or off.
pub fn switch_adapter(adapter: &str, on: bool) -> (r: String)
    ensures
        r@ == switch_script(adapter@, on),
{
    let name = quoted(adapter);
    let verb = if on {
        ENABLE_ADAPTER
    } else {
        DISABLE_ADAPTER
    };
    let parts = vec![verb, name.as_str(), UNASKED];
    proof {
        assert(parts.deep_view() =~= seq![verb@, quotes_doubled(adapter@), UNASKED@]);
    }
    let task = glue(&parts);
    script_on(adapter, task.as_str())
}

/// The script that reads the address and the gateway of the interface
/// `adapter`.
pub fn observe(adapter: &str) -> (r: String)
    ensures
        r@ == observe_script(adapter@),
{
    let name = quoted(adapter);
    let parts = vec![READ_ADDRESS_OF, name.as_str(), READ_ADDRESS];
    proof {
        assert(parts.deep_view() =~= seq![
            READ_ADDRESS_OF@,
            quotes_doubled(adapter@),
            READ_ADDRESS@,
        ]);
    }
    glue(&parts)
}

/// The script that checks the host `target` from wherever the system
/// routes it.
pub fn free_probe(target: &str, timeout_secs: u64) -> (r: String)
    ensures
        r@ == free_probe_script(target@, timeout_secs),
{
    let host = quoted(target);
    let seconds = decimal_string(timeout_secs);
    let parts = vec![TEST_CONNECTION, host.as_str(), WITHIN, seconds.as_str(), REPORT];
    proof {
        assert(parts.deep_view() =~= seq![
            TEST_CONNECTION@,
            quotes_doubled(target@),
            WITHIN@,
            decimal(timeout_secs as nat),
            REPORT@,
        ]);
    }
    glue(&parts)
}

/// A program to run, with its arguments.
#[derive(Clone, Debug, PartialEq, Eq)]
pub struct Invocation {
    pub program: String,
    pub arguments: Vec<String>,
}

/// An `Invocation` with its texts as sequences of characters.
pub struct InvocationView {
    pub program: Seq<char>,
    pub arguments: Seq<Seq<char>>,
}

impl View for Invocation {
    type V = InvocationView;

    open spec fn view(&self) -> InvocationView {
        InvocationView { program: self.program@, arguments: self.arguments.deep_view() }
    }
}

/// The invocation of PowerShell that runs `script`: without a profile,
/// without questions, and whatever the execution policy.
pub open spec fn powershell(script: Seq<char>) -> InvocationView {
    InvocationView {
        program: "powershell"@,
        arguments: seq![
            "-NoProfile"@,
            "-NonInteractive"@,
            "-ExecutionPolicy"@,
            "Bypass"@,
            "-Command"@,
            script,
        ],
    }
}

/// So many seconds in milliseconds, or the most that 64 bits hold where
/// that is less.
pub open spec fn wait_millis(timeout_secs: u64) -> u64 {
    if timeout_secs * 1000 > u64::MAX {
        u64::MAX
    } else {
        (timeout_secs * 1000) as u64
    }
}

/// The invocation of `ping` that sends one echo request to `target` from
/// the address `source` and waits `timeout_secs` seconds for the reply.
pub open spec fn bound_ping(source: Seq<char>, target: Seq<char>, timeout_secs: u64)
    -> InvocationView {
    InvocationView {
        program: "ping"@,
        arguments: seq![
            "-S"@,
            source,
            "-n"@,
            "1"@,
            "-w"@,
            decimal(wait_millis(timeout_secs) as nat),
            target,
        ],
    }
}

/// The invocation that carries out `action` on the interface `adapter`;
/// none for a pause, which runs nothing. A check with a source address
/// is made by `ping` from that address, one without by PowerShell.
pub open spec fn invocation_of(adapter: Seq<char>, action: ActionView) -> Option<InvocationView> {
    match action {
        ActionView::Resolve => Some(powershell(LIST_ADAPTERS@)),
        ActionView::Run(command) => Some(powershell(command_script(adapter, command))),
        ActionView::Pause(_) => None,
        ActionView::Observe => Some(powershell(observe_script(adapter))),
        ActionView::Probe { source, target, timeout_secs } => match source {
            Some(ip) => Some(bound_ping(ip, target, timeout_secs)),
            None => Some(powershell(free_probe_script(target, timeout_secs))),
        },
    }
}

/// The view of an invocation that may be missing.
pub open spec fn invocation_view(r: Option<Invocation>) -> Option<InvocationView> {
    match r {
        Some(invocation) => Some(invocation@),
        None => None,
    }
}

/// The invocation of PowerShell that runs `script`.
pub fn powershell_cmd(script: String) -> (r: Invocation)
    ensures
        r@ == powershell(script@),
{
    let mut arguments: Vec<String> = Vec::new();
    arguments.push("-NoProfile".to_owned());
    arguments.push("-NonInteractive".to_owned());
    arguments.push("-ExecutionPolicy".to_owned());
    arguments.push("Bypass".to_owned());
    arguments.push("-Command".to_owned());
    arguments.push(script);
    proof {
        assert(arguments.deep_view() =~= powershell(script@).arguments);
    }
    Invocation { program: "powershell".to_owned(), arguments }
}

/// The invocation of `ping` that sends one echo request to `target` from
/// the address `source`.
pub fn ping_cmd(source: &str, target: &str, timeout_secs: u64) -> (r: Invocation)
    ensures
        r@ == bound_ping(source@, target@, timeout_secs),
{
    let millis: u64 = if timeout_secs > u64::MAX / 1000 {
        u64::MAX
    } else {
        timeout_secs * 1000
    };
    let mut arguments: Vec<String> = Vec::new();
    arguments.push("-S".to_owned());
    arguments.push(source.to_owned());
    arguments.push("-n".to_owned());
    arguments.push("1".to_owned());
    arguments.push("-w".to_owned());
    arguments.push(decimal_string(millis));
    arguments.push(target.to_owned());
    proof {
        assert(arguments.deep_view() =~= bound_ping(source@, target@, timeout_secs).arguments);
    }
    Invocation { program: "ping".to_owned(), arguments }
}

/// The invocation that carries out `action` on the interface `adapter`.
pub fn invocation_for(adapter: &str, action: &Action) -> (r: Option<Invocation>)
    ensures
        invocation_view(r) == invocation_of(adapter@, action@),
{
    match action {
        Action::Resolve => Some(powershell_cmd(LIST_ADAPTERS.to_owned())),
        Action::Run(command) => Some(powershell_cmd(script_for(adapter, command))),
        Action::Pause(_) => None,
        Action::Observe => Some(powershell_cmd(observe(adapter))),
        Action::Probe { source, target, timeout_secs } => match source {
            Some(ip) => Some(ping_cmd(ip.as_str(), target.as_str(), *timeout_secs)),
            None => Some(powershell_cmd(free_probe(target.as_str(), *timeout_secs))),
        },
    }
}

} // verus!
