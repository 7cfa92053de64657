//! The narrow interface between the engine and the operating system: the
//! actions that the engine asks for, and the events that answer them.
//!
//! The engine never touches the system itself. It hands out one
//! `Action` at a time; whoever drives it performs the action on the
//! interface in question and hands back the `Event` that tells how it went.

use vstd::prelude::*;
use vstd::string::StringExecFns;
use crate::error::{
    CommandFailure, CommandFailureView, ConfigError, ConfigErrorView,
};
use crate::text::{has, has_infix, signed_decimal, signed_decimal_string, trim, trimmed};

verus! {

/// One change to the interface's configuration.
#[derive(Clone, Debug, PartialEq, Eq)]
pub enum Command {
    /// Remove the default route that goes through the interface, if any.
    RemoveDefaultRoute,
    /// Remove the addresses bound to the interface, if any.
    RemoveAddress,
    /// Bind a static address with the given prefix length.
    AssignAddress { ip: String, prefix: u8 },
    /// Make the given address the next hop of the default route:
    /// replace the route if there is one, create it if not.
    SetDefaultGateway { gateway: String },
    /// Have the interface ask for a lease.
    EnableDhcp,
    /// Have the interface keep the address it was given.
    DisableDhcp,
    /// Set the list of DNS servers.
    SetDns { servers: Vec<String> },
    /// Go back to the DNS servers that the lease brings.
    ResetDns,
    /// Ask for the lease to be renewed now.
    RenewLease,
    /// Switch the interface on.
    EnableAdapter,
    /// Switch the interface off.
    DisableAdapter,
}

/// A `Command` with its texts as sequences of characters.
pub enum CommandView {
    RemoveDefaultRoute,
    RemoveAddress,
    AssignAddress { ip: Seq<char>, prefix: u8 },
    SetDefaultGateway { gateway: Seq<char> },
    EnableDhcp,
    DisableDhcp,
    SetDns { servers: Seq<Seq<char>> },
    ResetDns,
    RenewLease,
    EnableAdapter,
    DisableAdapter,
}

impl View for Command {
    type V = CommandView;

    open spec fn view(&self) -> CommandView {
        match self {
            Command::RemoveDefaultRoute => CommandView::RemoveDefaultRoute,
            Command::RemoveAddress => CommandView::RemoveAddress,
            Command::AssignAddress { ip, prefix } => CommandView::AssignAddress {
                ip: ip@,
                prefix: *prefix,
            },
            Command::SetDefaultGateway { gateway } => CommandView::SetDefaultGateway {
                gateway: gateway@,
            },
            Command::EnableDhcp => CommandView::EnableDhcp,
            Command::DisableDhcp => CommandView::DisableDhcp,
            Command::SetDns { servers } => CommandView::SetDns { servers: servers.deep_view() },
            Command::ResetDns => CommandView::ResetDns,
            Command::RenewLease => CommandView::RenewLease,
            Command::EnableAdapter => CommandView::EnableAdapter,
            Command::DisableAdapter => CommandView::DisableAdapter,
        }
    }
}

/// What a command left behind when it ended.
#[derive(Clone, Debug, PartialEq, Eq)]
pub struct CommandOutput {
    /// Whether it ended with the status of success.
    pub success: bool,
    /// Its exit code, where it has one.
    pub exit_code: Option<i32>,
    pub stdout: String,
    pub stderr: String,
}

/// A `CommandOutput` with its texts as sequences of characters.
pub struct CommandOutputView {
    pub success: bool,
    pub exit_code: Option<i32>,
    pub stdout: Seq<char>,
    pub stderr: Seq<char>,
}

impl View for CommandOutput {
    type V = CommandOutputView;

    open spec fn view(&self) -> CommandOutputView {
        CommandOutputView {
            success: self.success,
            exit_code: self.exit_code,
            stdout: self.stdout@,
            stderr: self.stderr@,
        }
    }
}

/// How the attempt to run a command went.
#[derive(Clone, Debug, PartialEq, Eq)]
pub enum CommandResult {
    /// The command ran and ended.
    Completed(CommandOutput),
    /// The command could not be started; the text says why.
    NotStarted(String),
}

/// A `CommandResult` with its texts as sequences of characters.
pub enum CommandResultView {
    Completed(CommandOutputView),
    NotStarted(Seq<char>),
}

impl View for CommandResult {
    type V = CommandResultView;

    open spec fn view(&self) -> CommandResultView {
        match self {
            CommandResult::Completed(output) => CommandResultView::Completed(output@),
            CommandResult::NotStarted(why) => CommandResultView::NotStarted(why@),
        }
    }
}

/// What the interface reports of itself: its IPv4 address and the next
/// hop of its default route, each where there is one.
#[derive(Clone, Debug, PartialEq, Eq)]
pub struct AddressReport {
    pub ip: Option<String>,
    pub gateway: Option<String>,
}

/// An `AddressReport` with its texts as sequences of characters.
pub struct AddressReportView {
    pub ip: Option<Seq<char>>,
    pub gateway: Option<Seq<char>>,
}

impl View for AddressReport {
    type V = AddressReportView;

    open spec fn view(&self) -> AddressReportView {
        AddressReportView { ip: self.ip.deep_view(), gateway: self.gateway.deep_view() }
    }
}

/// The result of one reachability check.
#[derive(Clone, Copy, Debug, PartialEq, Eq, Structural)]
pub struct ProbeOutcome {
    pub succeeded: bool,
}

/// The wording with which a reachability check reports a reply.
pub open spec fn reply_marker() -> Seq<char> {
    "SUCCESS"@
}

impl ProbeOutcome {
    /// The outcome of a check that reports by the status with which it
    /// ended.
    pub fn from_status(success: bool) -> (r: ProbeOutcome)
        ensures
            r.succeeded == success,
    {
        ProbeOutcome { succeeded: success }
    }

    /// The outcome of a check that reports in words: it succeeded where
    /// its output holds the marker of a reply.
    pub fn from_output(stdout: &str) -> (r: ProbeOutcome)
        ensures
            r.succeeded == has_infix(stdout@, reply_marker()),
    {
        ProbeOutcome { succeeded: has(stdout, "SUCCESS") }
    }

    /// The outcome of an attempt that may have failed to run: a check that
    /// could not be made, or ran out of time, found nothing reachable.
    pub fn from_attempt(attempt: Result<bool, ConfigError>) -> (r: ProbeOutcome)
        ensures
            r.succeeded == (attempt matches Ok(reached) && reached),
    {
        match attempt {
            Ok(reached) => ProbeOutcome { succeeded: reached },
            Err(_) => ProbeOutcome { succeeded: false },
        }
    }
}

/// What the engine asks its driver to do next.
#[derive(Clone, Debug, PartialEq, Eq)]
pub enum Action {
    /// Find out whether the interface exists. Answered by `Resolved`.
    Resolve,
    /// Run a command on the interface. Answered by `Ran`.
    Run(Command),
    /// Wait for so many milliseconds. Answered by `Paused`.
    Pause(u64),
    /// Read the interface's address and gateway. Answered by `Observed`.
    Observe,
    /// Send one reachability check to `target` and wait at most
    /// `timeout_secs` seconds for the reply; send it from the address
    /// `source` where one is given. Answered by `Probed`.
    Probe { source: Option<String>, target: String, timeout_secs: u64 },
}

/// An `Action` with its texts as sequences of characters.
pub enum ActionView {
    Resolve,
    Run(CommandView),
    Pause(u64),
    Observe,
    Probe { source: Option<Seq<char>>, target: Seq<char>, timeout_secs: u64 },
}

impl View for Action {
    type V = ActionView;

    open spec fn view(&self) -> ActionView {
        match self {
            Action::Resolve => ActionView::Resolve,
            Action::Run(command) => ActionView::Run(command@),
            Action::Pause(millis) => ActionView::Pause(*millis),
            Action::Observe => ActionView::Observe,
            Action::Probe { source, target, timeout_secs } => ActionView::Probe {
                source: source.deep_view(),
                target: target@,
                timeout_secs: *timeout_secs,
            },
        }
    }
}

/// The longest that the engine ever asks its driver to wait, in
/// milliseconds, be it in a pause or for the reply to a check.
pub const LONGEST_WAIT_MILLIS: u64 = 1000;

/// Whether `action` keeps the driver waiting no longer than the engine
/// ever asks for: a pause of at most a second, a check that waits at most
/// a second for its reply, or anything that involves no waiting.
pub open spec fn is_brief(action: ActionView) -> bool {
    match action {
        ActionView::Pause(millis) => millis <= LONGEST_WAIT_MILLIS,
        ActionView::Probe { timeout_secs, .. } => timeout_secs * 1000 <= LONGEST_WAIT_MILLIS,
        _ => true,
    }
}

/// How the action that the engine asked for went.
#[derive(Clone, Debug, PartialEq, Eq)]
pub enum Event {
    /// Whether the interface exists.
    Resolved(bool),
    /// How the command went.
    Ran(CommandResult),
    /// The wait is over.
    Paused,
    /// What the interface reports, or nothing where it could not be read.
    Observed(Option<AddressReport>),
    /// How the reachability check went.
    Probed(ProbeOutcome),
}

/// An `Event` with its texts as sequences of characters.
pub enum EventView {
    Resolved(bool),
    Ran(CommandResultView),
    Paused,
    Observed(Option<AddressReportView>),
    Probed(ProbeOutcome),
}

impl View for Event {
    type V = EventView;

    open spec fn view(&self) -> EventView {
        match self {
            Event::Resolved(found) => EventView::Resolved(*found),
            Event::Ran(result) => EventView::Ran(result@),
            Event::Paused => EventView::Paused,
            Event::Observed(report) => EventView::Observed(
                match report {
                    Some(r) => Some(r@),
                    None => None,
                },
            ),
            Event::Probed(outcome) => EventView::Probed(*outcome),
        }
    }
}

/// What a machine with a yes-or-no result says after each answer: either
/// the next thing to do, with the machine to hand the answer to, or the
/// result.
#[derive(Debug)]
pub enum Turn<M> {
    Next(M, Action),
    Done(bool),
}

/// A `Turn` with the machine's state in place of the machine.
pub enum TurnView<S> {
    Next(S, ActionView),
    Done(bool),
}

impl<M: View> View for Turn<M> {
    type V = TurnView<M::V>;

    open spec fn view(&self) -> TurnView<M::V> {
        match self {
            Turn::Next(machine, action) => TurnView::Next(machine@, action@),
            Turn::Done(result) => TurnView::Done(*result),
        }
    }
}

/// The view of the result of an operation that gives nothing back but
/// its success.
pub open spec fn unit_result_view(r: Result<(), ConfigError>) -> Result<(), ConfigErrorView> {
    match r {
        Ok(_) => Ok(()),
        Err(e) => Err(e@),
    }
}

/// What a failed command has to say for itself: its error output without
/// the white space around it or, where that is empty, its ordinary
/// output without the white space around it.
pub open spec fn failure_text(output: CommandOutputView) -> Seq<char> {
    if trim(output.stderr).len() > 0 {
        trim(output.stderr)
    } else {
        trim(output.stdout)
    }
}

/// Whether a failed command failed for want of privileges: it says so in
/// one of the known wordings, or its exit code is 5.
pub open spec fn is_permission_failure(output: CommandOutputView) -> bool {
    let said = failure_text(output);
    ||| has_infix(said, "Access is denied"@)
    ||| has_infix(said, "权限被拒绝"@)
    ||| has_infix(said, "Windows System Error 5"@)
    ||| has_infix(said, "PermissionDenied"@)
    ||| output.exit_code == Some(5i32)
}

/// What the lookup of an interface by its name says where no interface
/// has that name.
pub const NO_SUCH_ADAPTER: &'static str = "No MSFT_NetAdapter objects found";

/// Whether a failed command failed because the interface it was to work
/// on is not there: it says what the lookup of an interface by its name
/// says where it finds none.
pub open spec fn is_missing_interface(output: CommandOutputView) -> bool {
    has_infix(failure_text(output), NO_SUCH_ADAPTER@)
}

/// The exit code to report: -1 where the command has none.
pub open spec fn reported_code(output: CommandOutputView) -> i32 {
    match output.exit_code {
        Some(code) => code,
        None => -1i32,
    }
}

/// The detail that goes with a refusal for want of privileges: what the
/// command said, word for word or, where it said nothing, the words for
/// its exit code and the code.
pub open spec fn refusal_detail(output: CommandOutputView) -> Seq<char> {
    if failure_text(output).len() > 0 {
        failure_text(output)
    } else {
        "退出码: "@ + signed_decimal(reported_code(output) as int)
    }
}

/// How a command failed that was neither refused for want of privileges
/// nor missed its interface: with what it said, word for word or, where
/// it said nothing, with its exit code.
pub open spec fn plain_failure(output: CommandOutputView) -> CommandFailureView {
    if failure_text(output).len() > 0 {
        CommandFailureView::Said(failure_text(output))
    } else {
        CommandFailureView::ExitCode(reported_code(output))
    }
}

/// What the output of a command means for the step that ran it.
pub open spec fn output_verdict(output: CommandOutputView) -> Result<(), ConfigErrorView> {
    if output.success {
        Ok(())
    } else if is_permission_failure(output) {
        Err(ConfigErrorView::PermissionDenied(refusal_detail(output)))
    } else if is_missing_interface(output) {
        Err(ConfigErrorView::InterfaceNotFound)
    } else {
        Err(ConfigErrorView::CommandFailed(plain_failure(output)))
    }
}

/// What the attempt to run a command means for the step that made it: a
/// command that could not be started has failed, and the reason is kept.
pub open spec fn result_verdict(result: CommandResultView) -> Result<(), ConfigErrorView> {
    match result {
        CommandResultView::Completed(output) => output_verdict(output),
        CommandResultView::NotStarted(why) => Err(
            ConfigErrorView::CommandFailed(CommandFailureView::NotStarted(why)),
        ),
    }
}

impl CommandOutput {
    /// Judges the output of a command: success, a refusal for want of
    /// privileges, an interface that is not there, or another failure.
    pub fn verdict(&self) -> (r: Result<(), ConfigError>)
        ensures
            unit_result_view(r) == output_verdict(self@),
    {
        if self.success {
            return Ok(());
        }
        let from_stderr = trimmed(self.stderr.as_str());
        let said = if from_stderr.as_str().unicode_len() > 0 {
            from_stderr
        } else {
            trimmed(self.stdout.as_str())
        };
        let code_is_five = match self.exit_code {
            Some(code) => code == 5,
            None => false,
        };
        let missing = has(said.as_str(), NO_SUCH_ADAPTER);
        let denied = has(said.as_str(), "Access is denied") || has(said.as_str(), "权限被拒绝")
            || has(said.as_str(), "Windows System Error 5") || has(
            said.as_str(),
            "PermissionDenied",
        ) || code_is_five;
        let silent = said.as_str().unicode_len() == 0;
        let code: i32 = match self.exit_code {
            Some(code) => code,
            None => -1,
        };
        if denied {
            if silent {
                let mut detail = "退出码: ".to_owned();
                detail.append(signed_decimal_string(code).as_str());
                Err(ConfigError::PermissionDenied(detail))
            } else {
                Err(ConfigError::PermissionDenied(said))
            }
        } else if missing {
            Err(ConfigError::InterfaceNotFound)
        } else if silent {
            Err(ConfigError::CommandFailed(CommandFailure::ExitCode(code)))
        } else {
            Err(ConfigError::CommandFailed(CommandFailure::Said(said)))
        }
    }
}

impl CommandResult {
    /// Judges the attempt to run a command.
    pub fn verdict(self) -> (r: Result<(), ConfigError>)
        ensures
            unit_result_view(r) == result_verdict(self@),
    {
        match self {
            CommandResult::Completed(output) => output.verdict(),
            CommandResult::NotStarted(why) => Err(
                ConfigError::CommandFailed(CommandFailure::NotStarted(why)),
            ),
        }
    }
}

} // verus!
