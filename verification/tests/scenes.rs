use ip_switch::inventory::NetworkAdapter;
use ip_switch::scenes::{
    apply_scene, enter, is_scene_file, restore_backup, save_backup, save_scene, scene_file_name,
    scene_profile, should_migrate, snapshot, update_scene, NetworkConfig, ProxyConfig, Scene,
};

fn adapter(name: &str, is_dhcp: bool, ip: Option<&str>) -> NetworkAdapter {
    NetworkAdapter {
        name: name.to_string(),
        network_type: "ethernet".to_string(),
        is_wireless: false,
        is_enabled: true,
        is_dhcp,
        ip_address: ip.map(String::from),
        subnet_mask: ip.map(|_| "255.255.255.0".to_string()),
        gateway: ip.map(|_| "192.168.1.1".to_string()),
        dns_servers: ip.map(|_| vec!["8.8.8.8".to_string()]),
        mac_address: None,
        duration: None,
        link_speed: None,
        bytes_sent: None,
        bytes_received: None,
    }
}

fn kept(is_dhcp: bool, ip: Option<&str>) -> NetworkConfig {
    NetworkConfig {
        is_dhcp,
        ip: ip.map(String::from),
        subnet: ip.map(|_| "255.255.255.0".to_string()),
        gateway: ip.map(|_| "192.168.1.1".to_string()),
        dns: ip.map(|_| vec!["8.8.8.8".to_string()]),
    }
}

fn proxy() -> ProxyConfig {
    ProxyConfig { enabled: true, server: "127.0.0.1:8080".to_string(), bypass: vec![] }
}

#[test]
fn snapshot_keeps_each_interface_under_its_name() {
    let adapters =
        vec![adapter("Ethernet", false, Some("192.168.1.10")), adapter("Wi-Fi", true, None)];
    assert_eq!(
        snapshot(&adapters),
        vec![
            ("Ethernet".to_string(), kept(false, Some("192.168.1.10"))),
            ("Wi-Fi".to_string(), kept(true, None)),
        ]
    );
    assert!(snapshot(&Vec::new()).is_empty());
}

#[test]
fn later_interface_of_a_name_replaces_the_earlier_in_its_place() {
    let adapters = vec![
        adapter("a", false, Some("1.1.1.1")),
        adapter("b", true, None),
        adapter("a", false, Some("3.3.3.3")),
    ];
    assert_eq!(
        snapshot(&adapters),
        vec![("a".to_string(), kept(false, Some("3.3.3.3"))), ("b".to_string(), kept(true, None))]
    );
}

#[test]
fn entry_is_replaced_or_added() {
    let mut entries = vec![("a".to_string(), kept(true, None))];
    enter(&mut entries, "b".to_string(), kept(false, Some("2.2.2.2")));
    enter(&mut entries, "a".to_string(), kept(false, Some("1.1.1.1")));
    assert_eq!(
        entries,
        vec![
            ("a".to_string(), kept(false, Some("1.1.1.1"))),
            ("b".to_string(), kept(false, Some("2.2.2.2"))),
        ]
    );
}

#[test]
fn saved_scene_has_no_colour() {
    let adapters = vec![adapter("Ethernet", true, None)];
    let scene = save_scene(
        "office".to_string(),
        &adapters,
        Some("127.0.0.1 localhost".to_string()),
        Some(proxy()),
    );
    assert_eq!(
        scene,
        Scene {
            name: "office".to_string(),
            network_configs: vec![("Ethernet".to_string(), kept(true, None))],
            hosts_content: Some("127.0.0.1 localhost".to_string()),
            proxy_config: Some(proxy()),
            tray_color: None,
        }
    );
}

#[test]
fn backup_keeps_the_interfaces_and_nothing_else() {
    let scene = save_backup(&vec![adapter("Ethernet", false, Some("10.0.0.5"))]);
    assert_eq!(scene.name, "_backup_before_scene");
    assert_eq!(scene.network_configs.len(), 1);
    assert_eq!(scene.hosts_content, None);
    assert_eq!(scene.proxy_config, None);
    assert_eq!(scene.tray_color, None);
}

#[test]
fn update_replaces_what_is_given_and_keeps_the_rest() {
    let old = Scene {
        name: "office".to_string(),
        network_configs: vec![("a".to_string(), kept(true, None))],
        hosts_content: Some("old hosts".to_string()),
        proxy_config: Some(proxy()),
        tray_color: Some("#3366FF".to_string()),
    };
    let updated = update_scene(
        Some(old.clone()),
        "ignored".to_string(),
        vec![("b".to_string(), kept(false, Some("2.2.2.2")))],
        None,
        None,
        Some("#FF0000".to_string()),
    );
    assert_eq!(updated.name, "office");
    assert_eq!(updated.network_configs, vec![("b".to_string(), kept(false, Some("2.2.2.2")))]);
    assert_eq!(updated.hosts_content, Some("old hosts".to_string()));
    assert_eq!(updated.proxy_config, Some(proxy()));
    assert_eq!(updated.tray_color, Some("#FF0000".to_string()));
    let updated = update_scene(Some(old), "x".to_string(), vec![], Some(String::new()), None, None);
    assert_eq!(updated.hosts_content, Some(String::new()));
    assert!(updated.network_configs.is_empty());
    assert_eq!(updated.tray_color, Some("#3366FF".to_string()));
}

#[test]
fn update_of_a_scene_that_does_not_exist_makes_it() {
    let made = update_scene(None, "home".to_string(), vec![], None, Some(proxy()), None);
    assert_eq!(
        made,
        Scene {
            name: "home".to_string(),
            network_configs: vec![],
            hosts_content: None,
            proxy_config: Some(proxy()),
            tray_color: None,
        }
    );
}

#[test]
fn dhcp_entry_goes_back_as_dhcp() {
    let profile = scene_profile(&kept(true, Some("10.0.0.5"))).unwrap();
    assert_eq!(profile.mode, "dhcp");
    assert_eq!(profile.dhcp, None);
    assert_eq!(profile.static_config, None);
    assert_eq!(profile.ping_target, "");
}

#[test]
fn static_entry_goes_back_with_all_it_has() {
    let profile = scene_profile(&kept(false, Some("10.0.0.5"))).unwrap();
    assert_eq!(profile.mode, "static");
    let fixed = profile.static_config.unwrap();
    assert_eq!(fixed.ip, "10.0.0.5");
    assert_eq!(fixed.subnet, "255.255.255.0");
    assert_eq!(fixed.gateway, "192.168.1.1");
    assert_eq!(fixed.dns, Some(vec!["8.8.8.8".to_string()]));
    let mut bare = kept(false, Some("10.0.0.5"));
    bare.dns = None;
    assert_eq!(scene_profile(&bare).unwrap().static_config.unwrap().dns, Some(vec![]));
}

#[test]
fn static_entry_that_lacks_a_part_is_passed_over() {
    for missing in 0..3 {
        let mut entry = kept(false, Some("10.0.0.5"));
        match missing {
            0 => entry.ip = None,
            1 => entry.subnet = None,
            _ => entry.gateway = None,
        }
        assert_eq!(scene_profile(&entry), None);
    }
    assert_eq!(scene_profile(&kept(false, None)), None);
}

#[test]
fn scene_is_applied_entry_by_entry() {
    let scene = Scene {
        name: "office".to_string(),
        network_configs: vec![
            ("a".to_string(), kept(false, Some("1.1.1.1"))),
            ("b".to_string(), kept(false, None)),
            ("c".to_string(), kept(true, None)),
        ],
        hosts_content: None,
        proxy_config: None,
        tray_color: None,
    };
    let changes = apply_scene(&scene);
    assert_eq!(changes.len(), 2);
    assert_eq!(changes[0].0, "a");
    assert_eq!(changes[0].1.mode, "static");
    assert_eq!(changes[1].0, "c");
    assert_eq!(changes[1].1.mode, "dhcp");
    assert_eq!(restore_backup(&scene), changes);
}

#[test]
fn scenes_are_kept_in_json_files() {
    assert_eq!(scene_file_name("office"), "office.json");
    assert_eq!(scene_file_name(""), ".json");
    assert_eq!(scene_file_name("_backup_before_scene"), "_backup_before_scene.json");
}

#[test]
fn backups_and_other_files_are_not_listed() {
    assert!(is_scene_file("office.json"));
    assert!(is_scene_file("a.json"));
    assert!(is_scene_file("my.scene.json"));
    assert!(is_scene_file("backup_.json"));
    assert!(is_scene_file("_backup.json"));
    assert!(!is_scene_file("_backup_before_scene.json"));
    assert!(!is_scene_file("_backup_.json"));
    assert!(!is_scene_file(".json"));
    assert!(!is_scene_file("office.JSON"));
    assert!(!is_scene_file("office.json.bak"));
    assert!(!is_scene_file("office"));
    assert!(!is_scene_file("json"));
    assert!(!is_scene_file(""));
}

#[test]
fn old_scenes_move_only_into_an_empty_place() {
    assert!(should_migrate(true, false, true));
    assert!(should_migrate(true, false, false));
    assert!(should_migrate(true, true, true));
    assert!(!should_migrate(true, true, false));
    assert!(!should_migrate(false, false, true));
    assert!(!should_migrate(false, true, true));
}
