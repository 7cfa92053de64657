//! The hosts file of the system, and what may be fetched to replace it.

use vstd::prelude::*;
use vstd::string::StringExecFns;
use crate::text::{blank, decimal, is_blank, push_decimal};

verus! {

/// Where the hosts file stands.
pub const HOSTS_PATH: &'static str = "C:\\Windows\\System32\\drivers\\etc\\hosts";

/// Where the copy stands that is made of the hosts file before it is
/// written.
pub const HOSTS_BACKUP_PATH: &'static str = "C:\\Windows\\System32\\drivers\\etc\\hosts.hosts.bak";

/// Seconds that a remote server has to answer.
pub const FETCH_TIMEOUT_SECS: u64 = 30;

/// Where the hosts file stands.
pub fn get_hosts_path() -> (r: &'static str)
    ensures
        r@ == HOSTS_PATH@,
{
    HOSTS_PATH
}

/// Where the copy stands that is made of the hosts file before it is
/// written.
pub fn get_hosts_backup_path() -> (r: &'static str)
    ensures
        r@ == HOSTS_BACKUP_PATH@,
{
    HOSTS_BACKUP_PATH
}

/// Whether an HTTP status is one of success.
pub open spec fn is_success(status: u16) -> bool {
    200 <= status < 300
}

/// What is said of an answer with a status that is not one of success.
pub open spec fn status_complaint(status: u16, reason: Seq<char>) -> Seq<char> {
    "HTTP错误: "@ + decimal(status as nat) + " "@ + reason
}

/// The view of a result whose two sides are texts.
pub open spec fn text_result_view(r: Result<String, String>) -> Result<Seq<char>, Seq<char>> {
    match r {
        Ok(text) => Ok(text@),
        Err(message) => Err(message@),
    }
}

/// The view of a result that gives nothing back but its success, or a
/// complaint.
pub open spec fn complaint_view(r: Result<(), String>) -> Result<(), Seq<char>> {
    match r {
        Ok(_) => Ok(()),
        Err(message) => Err(message@),
    }
}

/// Judges the status with which a remote server answered: anything but
/// success is an error that names the status and the reason given.
pub fn check_status(status: u16, reason: &str) -> (r: Result<(), String>)
    ensures
        complaint_view(r) == if is_success(status) {
            Ok::<(), Seq<char>>(())
        } else {
            Err::<(), Seq<char>>(status_complaint(status, reason@))
        },
{
    if 200 <= status && status < 300 {
        Ok(())
    } else {
        let mut message = "HTTP错误: ".to_owned();
        push_decimal(&mut message, status as u64);
        message.append(" ");
        message.append(reason);
        Err(message)
    }
}

/// Judges what a remote server sent: a blank answer is an error, anything
/// else is handed on as it is.
pub fn fetch_remote_hosts(content: String) -> (r: Result<String, String>)
    ensures
        text_result_view(r) == if is_blank(content@) {
            Err::<Seq<char>, Seq<char>>("远程内容为空"@)
        } else {
            Ok::<Seq<char>, Seq<char>>(content@)
        },
{
    if blank(content.as_str()) {
        Err("远程内容为空".to_owned())
    } else {
        Ok(content)
    }
}

} // verus!
