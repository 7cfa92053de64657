//! What can go wrong when a profile is put on an interface.

use vstd::prelude::*;
use crate::text::{concat, glue};

verus! {

/// Why a profile was refused before anything was done to the interface.
#[derive(Clone, Debug, PartialEq, Eq)]
pub enum ConfigFault {
    /// The addressing mode is neither `dhcp` nor `static`; the text is
    /// what the profile gives as its mode.
    UnknownMode(String),
    /// The mode is `static` and the static parameters are missing.
    MissingStatic,
    /// The static address is not a dotted-quad IPv4 address.
    BadAddress,
    /// The subnet mask does not have four parts with dots between.
    BadMaskFormat,
    /// The subnet mask has four parts, but they are not the octets of a
    /// contiguous mask.
    BadMaskValue,
    /// The gateway is not a dotted-quad IPv4 address.
    BadGateway,
    /// A DNS server of a static profile is not a dotted-quad IPv4
    /// address.
    BadDns,
}

/// A `ConfigFault` with its text as a sequence of characters.
pub enum ConfigFaultView {
    UnknownMode(Seq<char>),
    MissingStatic,
    BadAddress,
    BadMaskFormat,
    BadMaskValue,
    BadGateway,
    BadDns,
}

impl View for ConfigFault {
    type V = ConfigFaultView;

    open spec fn view(&self) -> ConfigFaultView {
        match self {
            ConfigFault::UnknownMode(mode) => ConfigFaultView::UnknownMode(mode@),
            ConfigFault::MissingStatic => ConfigFaultView::MissingStatic,
            ConfigFault::BadAddress => ConfigFaultView::BadAddress,
            ConfigFault::BadMaskFormat => ConfigFaultView::BadMaskFormat,
            ConfigFault::BadMaskValue => ConfigFaultView::BadMaskValue,
            ConfigFault::BadGateway => ConfigFaultView::BadGateway,
            ConfigFault::BadDns => ConfigFaultView::BadDns,
        }
    }
}

/// How a command failed that the change cannot do without.
#[derive(Clone, Debug, PartialEq, Eq)]
pub enum CommandFailure {
    /// It ran and failed; the text is what it said, word for word.
    Said(String),
    /// It ran and failed without a word; the number is its exit code, or
    /// -1 where it has none.
    ExitCode(i32),
    /// It could not be started; the text says why.
    NotStarted(String),
}

/// A `CommandFailure` with its text as a sequence of characters.
pub enum CommandFailureView {
    Said(Seq<char>),
    ExitCode(i32),
    NotStarted(Seq<char>),
}

impl View for CommandFailure {
    type V = CommandFailureView;

    open spec fn view(&self) -> CommandFailureView {
        match self {
            CommandFailure::Said(text) => CommandFailureView::Said(text@),
            CommandFailure::ExitCode(code) => CommandFailureView::ExitCode(*code),
            CommandFailure::NotStarted(why) => CommandFailureView::NotStarted(why@),
        }
    }
}

/// An error of the configuration engine.
#[derive(Clone, Debug, PartialEq, Eq)]
pub enum ConfigError {
    /// The interface does not resolve.
    InterfaceNotFound,
    /// The operating system refused the change for want of privileges; the
    /// text is what it said or, where it said nothing, its exit code.
    PermissionDenied(String),
    /// The profile itself is malformed.
    InvalidConfig(ConfigFault),
    /// A step that the change cannot do without failed for another
    /// reason.
    CommandFailed(CommandFailure),
    /// A reachability check ran out of time.
    Timeout,
}

/// A `ConfigError` with its texts as sequences of characters.
pub enum ConfigErrorView {
    InterfaceNotFound,
    PermissionDenied(Seq<char>),
    InvalidConfig(ConfigFaultView),
    CommandFailed(CommandFailureView),
    Timeout,
}

impl View for ConfigError {
    type V = ConfigErrorView;

    open spec fn view(&self) -> ConfigErrorView {
        match self {
            ConfigError::InterfaceNotFound => ConfigErrorView::InterfaceNotFound,
            ConfigError::PermissionDenied(detail) => ConfigErrorView::PermissionDenied(detail@),
            ConfigError::InvalidConfig(fault) => ConfigErrorView::InvalidConfig(fault@),
            ConfigError::CommandFailed(failure) => ConfigErrorView::CommandFailed(failure@),
            ConfigError::Timeout => ConfigErrorView::Timeout,
        }
    }
}

/// What is said of a fault of a profile. An unknown mode is named.
pub open spec fn fault_text(fault: ConfigFaultView) -> Seq<char> {
    match fault {
        ConfigFaultView::UnknownMode(mode) => concat(seq!["未知的模式: "@, mode]),
        ConfigFaultView::MissingStatic => "静态IP配置未提供"@,
        ConfigFaultView::BadAddress => "无效的IP地址"@,
        ConfigFaultView::BadMaskFormat => "无效的子网掩码格式"@,
        ConfigFaultView::BadMaskValue => "无效的子网掩码值"@,
        ConfigFaultView::BadGateway => "无效的网关地址"@,
        ConfigFaultView::BadDns => "无效的DNS服务器地址"@,
    }
}

impl ConfigFault {
    /// What is said of the fault.
    pub fn message(&self) -> (r: String)
        ensures
            r@ == fault_text(self@),
    {
        match self {
            ConfigFault::UnknownMode(mode) => {
                let parts = vec!["未知的模式: ", mode.as_str()];
                proof {
                    assert(parts.deep_view() =~= seq!["未知的模式: "@, mode@]);
                }
                glue(&parts)
            },
            ConfigFault::MissingStatic => "静态IP配置未提供".to_owned(),
            ConfigFault::BadAddress => "无效的IP地址".to_owned(),
            ConfigFault::BadMaskFormat => "无效的子网掩码格式".to_owned(),
            ConfigFault::BadMaskValue => "无效的子网掩码值".to_owned(),
            ConfigFault::BadGateway => "无效的网关地址".to_owned(),
            ConfigFault::BadDns => "无效的DNS服务器地址".to_owned(),
        }
    }
}

} // verus!
