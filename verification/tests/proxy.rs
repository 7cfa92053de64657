use ip_switch::proxy::{get_proxy, set_proxy, ProxyConfig, ProxyValues};

#[test]
fn proxy_is_read_from_its_three_values() {
    assert_eq!(
        get_proxy(
            Some(1),
            Some("127.0.0.1:8080".to_string()),
            Some("localhost; 127.* ;<local>".to_string())
        ),
        ProxyConfig {
            enabled: true,
            server: "127.0.0.1:8080".to_string(),
            bypass: vec!["localhost".to_string(), "127.*".to_string(), "<local>".to_string()],
        }
    );
}

#[test]
fn missing_proxy_values_read_as_off_and_empty() {
    assert_eq!(
        get_proxy(None, None, None),
        ProxyConfig { enabled: false, server: String::new(), bypass: vec![] }
    );
    assert!(!get_proxy(Some(0), None, None).enabled);
    assert!(get_proxy(Some(2), None, None).enabled);
    assert!(get_proxy(Some(u32::MAX), None, None).enabled);
}

#[test]
fn bypass_list_keeps_its_empty_entries() {
    assert_eq!(get_proxy(None, None, Some(String::new())).bypass, Vec::<String>::new());
    assert_eq!(get_proxy(None, None, Some(";".to_string())).bypass, vec!["", ""]);
    assert_eq!(get_proxy(None, None, Some(" ".to_string())).bypass, vec![""]);
    assert_eq!(get_proxy(None, None, Some("a;;b;".to_string())).bypass, vec!["a", "", "b", ""]);
}

#[test]
fn switched_off_proxy_writes_only_the_flag() {
    assert_eq!(
        set_proxy(false, "127.0.0.1:8080".to_string(), vec!["localhost".to_string()]),
        ProxyValues { enable: 0, server_and_override: None }
    );
}

#[test]
fn switched_on_proxy_writes_server_and_bypass_list() {
    assert_eq!(
        set_proxy(
            true,
            "127.0.0.1:8080".to_string(),
            vec!["localhost".to_string(), "10.*".to_string()]
        ),
        ProxyValues {
            enable: 1,
            server_and_override: Some(("127.0.0.1:8080".to_string(), "localhost;10.*".to_string())),
        }
    );
    assert_eq!(
        set_proxy(true, String::new(), vec![]),
        ProxyValues { enable: 1, server_and_override: Some((String::new(), String::new())) }
    );
    assert_eq!(
        set_proxy(true, "p".to_string(), vec!["only".to_string()]).server_and_override,
        Some(("p".to_string(), "only".to_string()))
    );
}

#[test]
fn bypass_list_survives_writing_and_reading() {
    let bypass = vec!["localhost".to_string(), "127.*".to_string(), "<local>".to_string()];
    let written = set_proxy(true, "proxy:3128".to_string(), bypass.clone());
    let (server, listed) = written.server_and_override.unwrap();
    let read = get_proxy(Some(written.enable), Some(server), Some(listed));
    assert_eq!(read, ProxyConfig { enabled: true, server: "proxy:3128".to_string(), bypass });
}
