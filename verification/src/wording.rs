//! What the user is told when a command fails.

use vstd::prelude::*;
use crate::backend::{Command, CommandView};
use crate::error::{
    fault_text, CommandFailure, CommandFailureView, ConfigError, ConfigErrorView,
};
use crate::text::{concat, glue, signed_decimal, signed_decimal_string};

verus! {

/// What is said after the name of an operation that was refused for
/// want of privileges, and before what the system said.
pub const ADVICE: &'static str =
    "\n\n错误原因：权限不足\n\n解决方案：\n1. 请右键点击应用程序\n2. 选择\"以管理员身份运行\"\n3. 重新尝试应用场景\n\n详细错误信息：";

/// What `command` is for, in the words of the user; nothing where there
/// is no command.
pub open spec fn purpose(command: Option<CommandView>) -> Seq<char> {
    match command {
        None => ""@,
        Some(CommandView::RemoveDefaultRoute) => "移除默认网关"@,
        Some(CommandView::RemoveAddress) => "移除现有IP"@,
        Some(CommandView::AssignAddress { .. }) => "设置静态IP"@,
        Some(CommandView::SetDefaultGateway { .. }) => "设置网关"@,
        Some(CommandView::EnableDhcp) => "启用DHCP"@,
        Some(CommandView::DisableDhcp) => "禁用DHCP"@,
        Some(CommandView::SetDns { .. }) => "设置DNS"@,
        Some(CommandView::ResetDns) => "重置DNS"@,
        Some(CommandView::RenewLease) => "续租DHCP"@,
        Some(CommandView::EnableAdapter) => "启用网卡"@,
        Some(CommandView::DisableAdapter) => "禁用网卡"@,
    }
}

/// Whether `command` switches the interface on or off.
pub open spec fn switches(command: Option<CommandView>) -> bool {
    command == Some(CommandView::EnableAdapter) || command == Some(CommandView::DisableAdapter)
}

/// The name of the operation that `command` performs on the interface
/// `adapter`: what it is for and on which interface, in the order in
/// which the language of the user puts them. Without a command it is the
/// name of the interface alone.
pub open spec fn operation_text(adapter: Seq<char>, command: Option<CommandView>) -> Seq<char> {
    if command is None {
        adapter
    } else if switches(command) {
        concat(seq![purpose(command), " "@, adapter])
    } else {
        concat(seq!["为网卡 "@, adapter, " "@, purpose(command)])
    }
}

/// What is said of a command that could not be started, before the
/// reason.
pub open spec fn launch_text(command: Option<CommandView>) -> Seq<char> {
    concat(seq!["执行"@, purpose(command), "命令失败"@])
}

/// What is said of a command that failed.
pub open spec fn failure_wording(
    failure: CommandFailureView,
    adapter: Seq<char>,
    command: Option<CommandView>,
) -> Seq<char> {
    match failure {
        CommandFailureView::Said(said) => concat(
            seq![operation_text(adapter, command), ": "@, said],
        ),
        CommandFailureView::ExitCode(code) => concat(
            seq![
                operation_text(adapter, command),
                "失败: 退出码 "@,
                signed_decimal(code as int),
            ],
        ),
        CommandFailureView::NotStarted(why) => concat(seq![launch_text(command), ": "@, why]),
    }
}

/// What is said of an error that came up while `command` was carried out
/// on the interface `adapter`.
///
/// A refusal for want of privileges names the operation, advises to
/// start over as administrator, and ends with what the system said. A
/// command that failed for another reason names the operation and then
/// what the system said, word for word, or its exit code where the
/// system said nothing. A command that could not be started says so, and
/// why. A missing interface is named; a fault of the profile is told as
/// it is.
pub open spec fn error_text(
    error: ConfigErrorView,
    adapter: Seq<char>,
    command: Option<CommandView>,
) -> Seq<char> {
    match error {
        ConfigErrorView::InterfaceNotFound => concat(seq!["找不到网卡: "@, adapter]),
        ConfigErrorView::PermissionDenied(detail) => concat(
            seq![operation_text(adapter, command), ADVICE@, detail],
        ),
        ConfigErrorView::InvalidConfig(fault) => fault_text(fault),
        ConfigErrorView::CommandFailed(failure) => failure_wording(failure, adapter, command),
        ConfigErrorView::Timeout => "操作超时"@,
    }
}

/// The view of a command that may be missing.
pub open spec fn command_view(command: Option<&Command>) -> Option<CommandView> {
    match command {
        Some(c) => Some(c@),
        None => None,
    }
}

/// What `command` is for, in the words of the user.
pub fn purpose_of(command: Option<&Command>) -> (r: &'static str)
    ensures
        r@ == purpose(command_view(command)),
{
    match command {
        None => "",
        Some(Command::RemoveDefaultRoute) => "移除默认网关",
        Some(Command::RemoveAddress) => "移除现有IP",
        Some(Command::AssignAddress { .. }) => "设置静态IP",
        Some(Command::SetDefaultGateway { .. }) => "设置网关",
        Some(Command::EnableDhcp) => "启用DHCP",
        Some(Command::DisableDhcp) => "禁用DHCP",
        Some(Command::SetDns { .. }) => "设置DNS",
        Some(Command::ResetDns) => "重置DNS",
        Some(Command::RenewLease) => "续租DHCP",
        Some(Command::EnableAdapter) => "启用网卡",
        Some(Command::DisableAdapter) => "禁用网卡",
    }
}

/// The name of the operation that `command` performs on the interface
/// `adapter`.
pub fn operation_name(adapter: &str, command: Option<&Command>) -> (r: String)
    ensures
        r@ == operation_text(adapter@, command_view(command)),
{
    let what = purpose_of(command);
    match command {
        None => adapter.to_owned(),
        Some(Command::EnableAdapter) | Some(Command::DisableAdapter) => {
            let parts = vec![what, " ", adapter];
            proof {
                assert(parts.deep_view() =~= seq![what@, " "@, adapter@]);
            }
            glue(&parts)
        },
        Some(_) => {
            let parts = vec!["为网卡 ", adapter, " ", what];
            proof {
                assert(parts.deep_view() =~= seq!["为网卡 "@, adapter@, " "@, what@]);
            }
            glue(&parts)
        },
    }
}

/// What is said of a command that could not be started, before the
/// reason.
pub fn launch_name(command: Option<&Command>) -> (r: String)
    ensures
        r@ == launch_text(command_view(command)),
{
    let what = purpose_of(command);
    let parts = vec!["执行", what, "命令失败"];
    proof {
        assert(parts.deep_view() =~= seq!["执行"@, what@, "命令失败"@]);
    }
    glue(&parts)
}

impl CommandFailure {
    /// What is said of the failure of `command` on the interface
    /// `adapter`.
    pub fn message(&self, adapter: &str, command: Option<&Command>) -> (r: String)
        ensures
            r@ == failure_wording(self@, adapter@, command_view(command)),
    {
        match self {
            CommandFailure::Said(said) => {
                let operation = operation_name(adapter, command);
                let parts = vec![operation.as_str(), ": ", said.as_str()];
                proof {
                    assert(parts.deep_view() =~= seq![operation@, ": "@, said@]);
                }
                glue(&parts)
            },
            CommandFailure::ExitCode(code) => {
                let operation = operation_name(adapter, command);
                let number = signed_decimal_string(*code);
                let parts = vec![operation.as_str(), "失败: 退出码 ", number.as_str()];
                proof {
                    assert(parts.deep_view() =~= seq![operation@, "失败: 退出码 "@, number@]);
                }
                glue(&parts)
            },
            CommandFailure::NotStarted(why) => {
                let launch = launch_name(command);
                let parts = vec![launch.as_str(), ": ", why.as_str()];
                proof {
                    assert(parts.deep_view() =~= seq![launch@, ": "@, why@]);
                }
                glue(&parts)
            },
        }
    }
}

impl ConfigError {
    /// What is said of the error, which came up while `command` was
    /// carried out on the interface `adapter`.
    pub fn message(&self, adapter: &str, command: Option<&Command>) -> (r: String)
        ensures
            r@ == error_text(self@, adapter@, command_view(command)),
    {
        match self {
            ConfigError::InterfaceNotFound => {
                let parts = vec!["找不到网卡: ", adapter];
                proof {
                    assert(parts.deep_view() =~= seq!["找不到网卡: "@, adapter@]);
                }
                glue(&parts)
            },
            ConfigError::PermissionDenied(detail) => {
                let operation = operation_name(adapter, command);
                let parts = vec![operation.as_str(), ADVICE, detail.as_str()];
                proof {
                    assert(parts.deep_view() =~= seq![operation@, ADVICE@, detail@]);
                }
                glue(&parts)
            },
            ConfigError::InvalidConfig(fault) => fault.message(),
            ConfigError::CommandFailed(failure) => failure.message(adapter, command),
            ConfigError::Timeout => "操作超时".to_owned(),
        }
    }
}

} // verus!
