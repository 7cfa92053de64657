//! Elevated privileges: reading what the system says of the process, and
//! preparing and judging the request to start over with more.

use vstd::prelude::*;
use vstd::string::StringExecFns;
use crate::text::{chars_of, decimal, join_with, joined, push_decimal};

verus! {

/// What the system answered when asked about the token of the process.
#[derive(Clone, Copy, Debug, PartialEq, Eq, Structural)]
pub struct TokenQuery {
    /// Whether the token of the process could be opened.
    pub opened: bool,
    /// Whether a token came back.
    pub token_present: bool,
    /// Whether the token answered the question of its elevation.
    pub answered: bool,
    /// The answer: zero for a token that is not elevated.
    pub elevation: u32,
}

/// Whether the answers show a process with elevated privileges: every
/// call must have succeeded, and the token must say that it is elevated.
pub open spec fn shows_elevation(query: TokenQuery) -> bool {
    query.opened && query.token_present && query.answered && query.elevation != 0
}

/// Tests whether the answers show a process with elevated privileges.
pub fn is_elevated(query: &TokenQuery) -> (r: bool)
    ensures
        r == shows_elevation(*query),
{
    if !query.opened {
        return false;
    }
    if !query.token_present {
        return false;
    }
    query.answered && query.elevation != 0
}

/// Tests whether the answers show a process with elevated privileges.
pub fn is_elevated_check(query: &TokenQuery) -> (r: bool)
    ensures
        r == shows_elevation(*query),
{
    is_elevated(query)
}

/// The UTF-16 code units of a character: itself where it fits into 16
/// bits, else a high and a low surrogate that carry ten bits each of
/// what it exceeds `0x10000` by.
pub open spec fn utf16_units(c: char) -> Seq<u16> {
    let v = c as u32;
    if v < 0x10000 {
        seq![v as u16]
    } else {
        seq![(0xD800 + (v - 0x10000) / 0x400) as u16, (0xDC00 + (v - 0x10000) % 0x400) as u16]
    }
}

/// The UTF-16 encoding of a text.
pub open spec fn utf16(s: Seq<char>) -> Seq<u16>
    decreases s.len(),
{
    if s.len() == 0 {
        Seq::<u16>::empty()
    } else {
        utf16(s.drop_last()) + utf16_units(s.last())
    }
}

/// A text as the system takes it: in UTF-16, with a zero at the end.
pub open spec fn wide(s: Seq<char>) -> Seq<u16> {
    utf16(s).push(0)
}

/// A text as the system takes it: in UTF-16, with a zero at the end.
pub fn wide_text(s: &str) -> (r: Vec<u16>)
    ensures
        r@ == wide(s@),
{
    let v = chars_of(s);
    let mut r: Vec<u16> = Vec::new();
    let mut i: usize = 0;
    while i < v.len()
        invariant
            i <= v.len(),
            r@ == utf16(v@.take(i as int)),
        decreases v.len() - i,
    {
        let ghost upto = v@.take(i + 1);
        proof {
            assert(upto.drop_last() == v@.take(i as int));
            assert(upto.last() == v@[i as int]);
        }
        let code: u32 = v[i] as u32;
        if code < 0x10000 {
            r.push(code as u16);
        } else {
            let rest: u32 = code - 0x10000;
            r.push((0xD800 + rest / 0x400) as u16);
            r.push((0xDC00 + rest % 0x400) as u16);
        }
        proof {
            assert(r@ =~= utf16(upto));
        }
        i += 1;
    }
    proof {
        assert(v@.take(v.len() as int) == v@);
    }
    r.push(0);
    r
}

/// What a new start with elevated privileges is asked with.
#[derive(Clone, Debug, PartialEq, Eq)]
pub struct Relaunch {
    /// The verb that asks for elevation.
    pub verb: Vec<u16>,
    /// The program to start.
    pub program: Vec<u16>,
    /// Its arguments, as one text.
    pub arguments: Vec<u16>,
}

/// The arguments of the process as one text, with single blanks between.
pub open spec fn argument_line(arguments: Seq<Seq<char>>) -> Seq<char> {
    joined(arguments, " "@)
}

/// Prepares the request to start `program` over with elevated
/// privileges and the arguments that the process itself was given.
pub fn relaunch_request(program: &str, arguments: &Vec<String>) -> (r: Relaunch)
    ensures
        r.verb@ == wide("runas"@),
        r.program@ == wide(program@),
        r.arguments@ == wide(argument_line(arguments.deep_view())),
{
    let line = join_with(arguments, " ");
    Relaunch {
        verb: wide_text("runas"),
        program: wide_text(program),
        arguments: wide_text(line.as_str()),
    }
}

/// The least answer with which the system reports that the new process
/// was started; anything up to it is an error code.
pub const LAUNCH_FAILED_UP_TO: usize = 32;

/// What the answer to the request means: the text of the error where the
/// new process was not started.
pub open spec fn launch_verdict(answer: usize) -> Result<(), Seq<char>> {
    if answer > LAUNCH_FAILED_UP_TO {
        Ok(())
    } else {
        Err("请求管理员权限失败，错误代码: "@ + decimal(answer as nat))
    }
}

/// The view of the result of a request.
pub open spec fn launch_view(r: Result<(), String>) -> Result<(), Seq<char>> {
    match r {
        Ok(_) => Ok(()),
        Err(message) => Err(message@),
    }
}

/// Judges the answer of the system to the request to start over.
pub fn restart_as_admin(answer: usize) -> (r: Result<(), String>)
    ensures
        launch_view(r) == launch_verdict(answer),
{
    if answer > LAUNCH_FAILED_UP_TO {
        Ok(())
    } else {
        let mut message = "请求管理员权限失败，错误代码: ".to_owned();
        push_decimal(&mut message, answer as u64);
        Err(message)
    }
}

/// Judges the answer of the system to the request to start over.
pub fn restart_as_admin_internal(answer: usize) -> (r: Result<(), String>)
    ensures
        launch_view(r) == launch_verdict(answer),
{
    restart_as_admin(answer)
}

/// What a process that wants elevated privileges does next.
#[derive(Clone, Copy, Debug, PartialEq, Eq, Structural)]
pub enum ElevationStep {
    /// It has them already.
    Proceed,
    /// It asks to be started over with them.
    Relaunch,
}

/// What a process that wants elevated privileges does next: it goes on
/// where it has them, and asks to be started over where it has not.
pub fn request_admin_privileges(query: &TokenQuery) -> (r: ElevationStep)
    ensures
        r == if shows_elevation(*query) {
            ElevationStep::Proceed
        } else {
            ElevationStep::Relaunch
        },
{
    if is_elevated(query) {
        ElevationStep::Proceed
    } else {
        ElevationStep::Relaunch
    }
}

} // verus!
