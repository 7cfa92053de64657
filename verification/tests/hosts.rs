use ip_switch::hosts::{
    check_status, fetch_remote_hosts, get_hosts_backup_path, get_hosts_path, FETCH_TIMEOUT_SECS,
};

#[test]
fn hosts_file_stands_in_the_drivers_directory() {
    assert_eq!(get_hosts_path(), "C:\\Windows\\System32\\drivers\\etc\\hosts");
    assert_eq!(get_hosts_backup_path(), "C:\\Windows\\System32\\drivers\\etc\\hosts.hosts.bak");
    assert_eq!(FETCH_TIMEOUT_SECS, 30);
}

#[test]
fn statuses_of_success_pass() {
    assert_eq!(check_status(200, "OK"), Ok(()));
    assert_eq!(check_status(204, "No Content"), Ok(()));
    assert_eq!(check_status(299, ""), Ok(()));
}

#[test]
fn other_statuses_are_named_in_the_error() {
    assert_eq!(check_status(404, "Not Found"), Err("HTTP错误: 404 Not Found".to_string()));
    assert_eq!(check_status(500, "Internal Server Error"), Err("HTTP错误: 500 Internal Server Error".to_string()));
    assert_eq!(check_status(199, "x"), Err("HTTP错误: 199 x".to_string()));
    assert_eq!(check_status(300, "Multiple Choices"), Err("HTTP错误: 300 Multiple Choices".to_string()));
    assert_eq!(check_status(0, ""), Err("HTTP错误: 0 ".to_string()));
    assert_eq!(check_status(u16::MAX, ""), Err("HTTP错误: 65535 ".to_string()));
}

#[test]
fn blank_remote_content_is_refused() {
    assert_eq!(fetch_remote_hosts(String::new()), Err("远程内容为空".to_string()));
    assert_eq!(fetch_remote_hosts(" \r\n\t ".to_string()), Err("远程内容为空".to_string()));
}

#[test]
fn remote_content_is_handed_on_untouched() {
    let content = "\n127.0.0.1 localhost\n\n".to_string();
    assert_eq!(fetch_remote_hosts(content.clone()), Ok(content));
    assert_eq!(fetch_remote_hosts("#".to_string()), Ok("#".to_string()));
}
