use ip_switch::backend::AddressReport;
use ip_switch::inventory::{
    adapter_from, adapter_links, address_report_from, classify, clean, config_from,
    find_config, get_all_ip_configs, get_ip_config, get_ipv4_and_gateway, has_adapter, link_from,
    member_count, network_kind, objects, unknown_config, AdapterLink, IpConfig, NetworkKind,
};
use ip_switch::network::{get_network_info, unconfigured};

fn texts(list: &[&str]) -> Vec<String> {
    list.iter().map(|s| s.to_string()).collect()
}

#[test]
fn address_and_gateway_are_read_from_the_object() {
    assert_eq!(
        get_ipv4_and_gateway("{\"gw\":\"192.168.1.1\",\"ip\":\"192.168.1.10\"}\r\n"),
        Some(AddressReport {
            ip: Some("192.168.1.10".to_string()),
            gateway: Some("192.168.1.1".to_string()),
        })
    );
}

#[test]
fn null_members_read_as_missing() {
    assert_eq!(
        get_ipv4_and_gateway("{\"ip\":null,\"gw\":null}"),
        Some(AddressReport { ip: None, gateway: None })
    );
    assert_eq!(
        get_ipv4_and_gateway("  {\"ip\":\"10.0.0.5\"} "),
        Some(AddressReport { ip: Some("10.0.0.5".to_string()), gateway: None })
    );
    assert_eq!(
        get_ipv4_and_gateway("{\"ip\":7,\"gw\":[\"10.0.0.1\"]}"),
        Some(AddressReport { ip: None, gateway: None })
    );
}

#[test]
fn answer_that_is_no_json_gives_no_report() {
    assert_eq!(get_ipv4_and_gateway(""), None);
    assert_eq!(get_ipv4_and_gateway("Get-NetAdapter : No MSFT_NetAdapter objects found"), None);
    assert_eq!(get_ipv4_and_gateway("{\"ip\":\"10.0.0.5\""), None);
    assert_eq!(address_report_from(None, Some(None)), None);
    assert_eq!(address_report_from(Some(None), None), None);
    assert_eq!(
        address_report_from(Some(Some("a".to_string())), Some(None)),
        Some(AddressReport { ip: Some("a".to_string()), gateway: None })
    );
}

#[test]
fn byte_order_mark_and_white_space_are_taken_off() {
    assert_eq!(clean("\u{feff}[1]\r\n"), "[1]");
    assert_eq!(clean("  \u{feff}{}  "), "{}");
    assert_eq!(clean("\u{feff}\u{feff}x"), "\u{feff}x");
    assert_eq!(clean(" \n"), "");
    assert_eq!(clean("x"), "x");
}

#[test]
fn listing_of_several_interfaces_is_an_array() {
    let listing = r#"[{"Name":"Ethernet","InterfaceDescription":"Intel(R) Ethernet Connection","Status":"Up","MacAddress":"00-11-22-33-44-55","LinkSpeed":"1 Gbps","Duration":"01:02:03","BytesSent":1200,"BytesReceived":3400},
        {"Name":"Wi-Fi","InterfaceDescription":"Intel(R) Wireless-AC 9560","Status":"Disconnected","MacAddress":null,"LinkSpeed":"0 bps","Duration":null,"BytesSent":null,"BytesReceived":null}]"#;
    let links = adapter_links(listing);
    assert_eq!(links.len(), 2);
    assert_eq!(
        links[0],
        AdapterLink {
            name: "Ethernet".to_string(),
            description: "Intel(R) Ethernet Connection".to_string(),
            status: "Up".to_string(),
            mac_address: Some("00-11-22-33-44-55".to_string()),
            duration: Some("01:02:03".to_string()),
            link_speed: Some("1 Gbps".to_string()),
            bytes_sent: Some(1200),
            bytes_received: Some(3400),
        }
    );
    assert_eq!(links[1].name, "Wi-Fi");
    assert_eq!(links[1].status, "Disconnected");
    assert_eq!(links[1].mac_address, None);
    assert_eq!(links[1].bytes_sent, None);
}

#[test]
fn listing_of_one_interface_is_an_object() {
    let links = adapter_links("\u{feff}{\"Name\":\"Ethernet\",\"Status\":\"Up\"}");
    assert_eq!(links.len(), 1);
    assert_eq!(links[0].name, "Ethernet");
    assert_eq!(links[0].description, "");
    assert_eq!(objects("{\"Name\":\"Ethernet\"}"), vec!["{\"Name\":\"Ethernet\"}".to_string()]);
}

#[test]
fn listing_that_is_empty_or_no_json_lists_nothing() {
    assert!(adapter_links("").is_empty());
    assert!(adapter_links("   \r\n").is_empty());
    assert!(adapter_links("[]").is_empty());
    assert!(adapter_links("Get-NetAdapter : access denied").is_empty());
    assert!(objects("[1,").is_empty());
}

#[test]
fn missing_members_read_as_unknown_and_disabled() {
    let link = link_from("{}");
    assert_eq!(link.name, "Unknown");
    assert_eq!(link.status, "Disabled");
    assert_eq!(link.description, "");
    let link = link_from("{\"Name\":5,\"Status\":null}");
    assert_eq!(link.name, "Unknown");
    assert_eq!(link.status, "Disabled");
}

#[test]
fn counts_are_read_as_signed_and_kept_as_unsigned() {
    assert_eq!(link_from("{\"BytesSent\":0}").bytes_sent, Some(0));
    assert_eq!(link_from("{\"BytesSent\":9223372036854775807}").bytes_sent, Some(i64::MAX as u64));
    assert_eq!(link_from("{\"BytesSent\":-1}").bytes_sent, Some(u64::MAX));
    assert_eq!(link_from("{\"BytesSent\":-2}").bytes_sent, Some(u64::MAX - 1));
    assert_eq!(link_from("{\"BytesSent\":9223372036854775808}").bytes_sent, None);
    assert_eq!(link_from("{\"BytesSent\":1.5}").bytes_sent, None);
    assert_eq!(link_from("{\"BytesSent\":\"12\"}").bytes_sent, None);
    assert_eq!(member_count(Some(Some(i64::MIN))), Some(1u64 << 63));
    assert_eq!(member_count(Some(None)), None);
    assert_eq!(member_count(None), None);
}

#[test]
fn kind_is_told_from_description_and_name() {
    assert_eq!(classify("bluetooth device (personal area network)", "x"), NetworkKind::Bluetooth);
    assert_eq!(classify("x", "bluetooth network connection"), NetworkKind::Bluetooth);
    assert_eq!(classify("intel(r) wireless-ac 9560", "wi-fi"), NetworkKind::Wifi);
    assert_eq!(classify("some wifi card", "x"), NetworkKind::Wifi);
    assert_eq!(classify("802.11n usb adapter", "x"), NetworkKind::Wifi);
    assert_eq!(classify("x", "wlan0"), NetworkKind::Wifi);
    assert_eq!(classify("tap-windows adapter v9 for openvpn", "x"), NetworkKind::Vpn);
    assert_eq!(classify("x", "corp vpn"), NetworkKind::Vpn);
    assert_eq!(classify("wireguard tunnel", "x"), NetworkKind::Vpn);
    assert_eq!(classify("realtek pcie gbe family controller", "ethernet 2"), NetworkKind::Ethernet);
    assert_eq!(classify("intel(r) ethernet connection", "x"), NetworkKind::Ethernet);
    assert_eq!(classify("x", "以太网"), NetworkKind::Ethernet);
    assert_eq!(classify("hyper-v virtual switch", "vswitch"), NetworkKind::Other);
    assert_eq!(classify("", ""), NetworkKind::Other);
}

#[test]
fn earlier_kinds_win_over_later_ones() {
    assert_eq!(classify("bluetooth ethernet wireless vpn", "x"), NetworkKind::Bluetooth);
    assert_eq!(classify("wireless ethernet vpn", "x"), NetworkKind::Wifi);
    assert_eq!(classify("vpn", "ethernet"), NetworkKind::Vpn);
}

#[test]
fn kind_is_told_whatever_the_case() {
    assert_eq!(network_kind("Bluetooth Device", "X"), NetworkKind::Bluetooth);
    assert_eq!(network_kind("Intel(R) Wi-Fi 6 AX201", "WLAN"), NetworkKind::Wifi);
    assert_eq!(network_kind("Realtek", "Ethernet"), NetworkKind::Ethernet);
    assert_eq!(classify("Bluetooth Device", "X"), NetworkKind::Other);
    assert_eq!(NetworkKind::Wifi.label(), "wifi");
    assert_eq!(NetworkKind::Bluetooth.label(), "bluetooth");
    assert_eq!(NetworkKind::Vpn.label(), "vpn");
    assert_eq!(NetworkKind::Ethernet.label(), "ethernet");
    assert_eq!(NetworkKind::Other.label(), "other");
    assert!(NetworkKind::Wifi.is_wireless());
    assert!(NetworkKind::Bluetooth.is_wireless());
    assert!(!NetworkKind::Ethernet.is_wireless());
    assert!(!NetworkKind::Vpn.is_wireless());
    assert!(!NetworkKind::Other.is_wireless());
}

#[test]
fn configuration_is_read_from_its_object() {
    let config = config_from(
        r#"{"Name":"Ethernet","IP":"192.168.1.10","Prefix":24,"Gateway":" 192.168.1.1 ","Dhcp":1,"DNS":"8.8.8.8, 1.1.1.1"}"#,
    );
    assert_eq!(
        config,
        IpConfig {
            is_dhcp: true,
            ip_address: Some("192.168.1.10".to_string()),
            subnet_mask: Some("255.255.255.0".to_string()),
            gateway: Some("192.168.1.1".to_string()),
            dns_servers: Some(texts(&["8.8.8.8", "1.1.1.1"])),
        }
    );
}

#[test]
fn dhcp_is_told_in_words_or_as_a_number() {
    assert!(config_from("{\"Dhcp\":\"Enabled\"}").is_dhcp);
    assert!(config_from("{\"Dhcp\":\"enabled\"}").is_dhcp);
    assert!(config_from("{\"Dhcp\":\"Dhcp: ENABLED.\"}").is_dhcp);
    assert!(!config_from("{\"Dhcp\":\"Disabled\"}").is_dhcp);
    assert!(config_from("{\"Dhcp\":1}").is_dhcp);
    assert!(!config_from("{\"Dhcp\":0}").is_dhcp);
    assert!(!config_from("{\"Dhcp\":2}").is_dhcp);
    assert!(!config_from("{\"Dhcp\":true}").is_dhcp);
    assert!(!config_from("{}").is_dhcp);
    assert!(!config_from("not json").is_dhcp);
}

#[test]
fn missing_and_empty_members_of_a_configuration() {
    let config = config_from("{\"IP\":null,\"Prefix\":null,\"Gateway\":null,\"DNS\":\"\"}");
    assert_eq!(config, unknown_config());
    assert_eq!(config_from("{\"Gateway\":\"null\"}").gateway, None);
    assert_eq!(config_from("{\"Gateway\":\"  \"}").gateway, None);
    assert_eq!(config_from("{\"DNS\":\"   \"}").dns_servers, None);
    assert_eq!(config_from("{\"DNS\":\"8.8.8.8,\"}").dns_servers, Some(texts(&["8.8.8.8", ""])));
    assert_eq!(config_from("{\"Prefix\":33}").subnet_mask, None);
    assert_eq!(config_from("{\"Prefix\":0}").subnet_mask, Some("0.0.0.0".to_string()));
    assert_eq!(config_from("{\"Prefix\":280}").subnet_mask, Some("255.255.255.0".to_string()));
    assert_eq!(config_from("{\"Prefix\":-1}").subnet_mask, None);
}

#[test]
fn listing_of_configurations_skips_the_nameless() {
    let listing = r#"[{"Name":"Ethernet","IP":"10.0.0.5","Prefix":8,"Dhcp":0,"DNS":""},
        {"Name":"","IP":"10.0.0.6"},
        {"IP":"10.0.0.7"},
        {"Name":"Wi-Fi","IP":null,"Prefix":null,"Gateway":null,"Dhcp":1,"DNS":"9.9.9.9"}]"#;
    let configs = get_all_ip_configs(listing);
    assert_eq!(configs.len(), 2);
    assert_eq!(configs[0].0, "Ethernet");
    assert_eq!(configs[0].1.ip_address, Some("10.0.0.5".to_string()));
    assert_eq!(configs[0].1.subnet_mask, Some("255.0.0.0".to_string()));
    assert_eq!(configs[1].0, "Wi-Fi");
    assert!(configs[1].1.is_dhcp);
    assert_eq!(configs[1].1.dns_servers, Some(texts(&["9.9.9.9"])));
}

#[test]
fn listing_of_configurations_must_be_an_array() {
    assert!(get_all_ip_configs("").is_empty());
    assert!(get_all_ip_configs("{\"Name\":\"Ethernet\",\"IP\":\"10.0.0.5\"}").is_empty());
    assert!(get_all_ip_configs("garbage").is_empty());
    assert_eq!(get_all_ip_configs("\u{feff}[{\"Name\":\"a\"}]").len(), 1);
}

#[test]
fn later_configuration_of_a_name_replaces_the_earlier() {
    let configs =
        get_all_ip_configs(r#"[{"Name":"a","IP":"1.1.1.1"},{"Name":"b","IP":"2.2.2.2"},{"Name":"a","IP":"3.3.3.3"}]"#);
    assert_eq!(find_config(&configs, "a").unwrap().ip_address, Some("3.3.3.3".to_string()));
    assert_eq!(find_config(&configs, "b").unwrap().ip_address, Some("2.2.2.2".to_string()));
    assert_eq!(find_config(&configs, "c"), None);
    assert_eq!(find_config(&configs, "A"), None);
}

#[test]
fn one_interface_is_read_from_four_answers() {
    let config = get_ip_config(
        Some("{\"IP\":\"192.168.1.10\",\"Prefix\":23}\r\n"),
        Some("192.168.1.1\r\n"),
        Some("Enabled\r\n"),
        Some("8.8.8.8,8.8.4.4\r\n"),
    );
    assert_eq!(
        config,
        IpConfig {
            is_dhcp: true,
            ip_address: Some("192.168.1.10".to_string()),
            subnet_mask: Some("255.255.254.0".to_string()),
            gateway: Some("192.168.1.1".to_string()),
            dns_servers: Some(texts(&["8.8.8.8", "8.8.4.4"])),
        }
    );
}

#[test]
fn answers_that_say_nothing() {
    let config = get_ip_config(Some("null"), Some("null"), Some("Disabled"), Some(""));
    assert_eq!(config, unknown_config());
    let config = get_ip_config(Some(""), None, None, None);
    assert_eq!(config, unknown_config());
    let config = get_ip_config(None, Some("10.0.0.1"), Some("Enabled"), Some("8.8.8.8"));
    assert_eq!(config, unknown_config());
    let config = get_ip_config(Some("oops"), Some(" 10.0.0.1 "), Some("dhcp enabled"), None);
    assert_eq!(config.ip_address, None);
    assert_eq!(config.subnet_mask, None);
    assert_eq!(config.gateway, Some("10.0.0.1".to_string()));
    assert!(config.is_dhcp);
}

#[test]
fn prefix_is_taken_from_the_first_line_that_has_one() {
    let config = get_ip_config(
        Some("warning\n{\"IP\":\"x\"}\n{\"Prefix\":16}\n{\"Prefix\":24}"),
        None,
        None,
        None,
    );
    assert_eq!(config.subnet_mask, Some("255.255.0.0".to_string()));
    assert_eq!(config.ip_address, None);
}

#[test]
fn interface_is_put_together_from_link_and_configuration() {
    let link = link_from(
        r#"{"Name":"Ethernet","InterfaceDescription":"Realtek PCIe GbE","Status":"Up","MacAddress":"AA-BB","LinkSpeed":"1 Gbps","Duration":"00:10:00","BytesSent":5,"BytesReceived":6}"#,
    );
    let config = config_from(r#"{"IP":"10.0.0.5","Prefix":24,"Gateway":"10.0.0.1","Dhcp":0,"DNS":"1.1.1.1"}"#);
    let adapter = adapter_from(&link, config);
    assert_eq!(adapter.name, "Ethernet");
    assert_eq!(adapter.network_type, "ethernet");
    assert!(!adapter.is_wireless);
    assert!(adapter.is_enabled);
    assert!(!adapter.is_dhcp);
    assert_eq!(adapter.ip_address, Some("10.0.0.5".to_string()));
    assert_eq!(adapter.subnet_mask, Some("255.255.255.0".to_string()));
    assert_eq!(adapter.gateway, Some("10.0.0.1".to_string()));
    assert_eq!(adapter.dns_servers, Some(texts(&["1.1.1.1"])));
    assert_eq!(adapter.mac_address, Some("AA-BB".to_string()));
    assert_eq!(adapter.duration, Some("00:10:00".to_string()));
    assert_eq!(adapter.link_speed, Some("1 Gbps".to_string()));
    assert_eq!(adapter.bytes_sent, Some(5));
    assert_eq!(adapter.bytes_received, Some(6));
    let down = adapter_from(&link_from("{\"Name\":\"WLAN\",\"Status\":\"up\"}"), unknown_config());
    assert!(!down.is_enabled);
    assert_eq!(down.network_type, "wifi");
    assert!(down.is_wireless);
}

#[test]
fn interfaces_are_listed_with_their_configurations() {
    let links = adapter_links(r#"[{"Name":"a","Status":"Up"},{"Name":"b","Status":"Disabled"}]"#);
    let configs = get_all_ip_configs(r#"[{"Name":"b","IP":"2.2.2.2","Dhcp":1}]"#);
    let adapters = get_network_info(&links, &configs);
    assert_eq!(adapters.len(), 2);
    assert_eq!(adapters[0].name, "a");
    assert_eq!(adapters[0].ip_address, None);
    assert!(!adapters[0].is_dhcp);
    assert!(adapters[0].is_enabled);
    assert_eq!(adapters[1].name, "b");
    assert_eq!(adapters[1].ip_address, Some("2.2.2.2".to_string()));
    assert!(adapters[1].is_dhcp);
    assert_eq!(unconfigured(&links, &configs), vec!["a".to_string()]);
    assert_eq!(unconfigured(&links, &Vec::new()), vec!["a".to_string(), "b".to_string()]);
    assert!(unconfigured(&links, &get_all_ip_configs(r#"[{"Name":"b"},{"Name":"a"}]"#)).is_empty());
}

#[test]
fn interface_is_found_by_its_exact_name() {
    let links = adapter_links(r#"[{"Name":"Ethernet"},{"Name":"Wi-Fi"}]"#);
    assert!(has_adapter(&links, "Ethernet"));
    assert!(has_adapter(&links, "Wi-Fi"));
    assert!(!has_adapter(&links, "ethernet"));
    assert!(!has_adapter(&links, "Ethernet "));
    assert!(!has_adapter(&Vec::new(), "Ethernet"));
}
