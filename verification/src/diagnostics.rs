//! Diagnostic logging: when it is on, where a line goes, and how a long line is
//! cut.

use vstd::prelude::*;
use vstd::utf8;

use crate::config::{self, join, state_dir, Directories};
use crate::text::{self, same_text, to_decimal};

verus! {

/// Whether diagnostics are logged, and whether they also go to stderr.
#[derive(Debug, Clone, Copy, PartialEq, Eq, Structural)]
pub struct Diagnostics {
    pub enabled: bool,
    /// On in the daemon that runs in the foreground. Never on in the proxy, where
    /// stderr is for the user and stdout carries the bytes of the protocol.
    pub stderr_mirror: bool,
}

impl Diagnostics {
    /// Diagnostics are off until they are asked for.
    pub fn new() -> (diagnostics: Diagnostics)
        ensures
            !diagnostics.enabled,
            !diagnostics.stderr_mirror,
    {
        Diagnostics { enabled: false, stderr_mirror: false }
    }
}

/// The longest line, in bytes, that is logged as it is. A longer one, such as an
/// upstream's payload of some hundred kilobytes, would make logs unreadable.
pub const MAX_LOG_LINE_LEN: usize = 2000;

/// Turns diagnostics on or off.
pub fn set_enabled(diagnostics: &mut Diagnostics, enabled: bool)
    ensures
        *final(diagnostics) == (Diagnostics { enabled, ..*old(diagnostics) }),
{
    diagnostics.enabled = enabled;
}

/// Whether diagnostics are on.
pub fn is_enabled(diagnostics: &Diagnostics) -> (enabled: bool)
    ensures
        enabled == diagnostics.enabled,
{
    diagnostics.enabled
}

/// Lets diagnostics go to stderr too, or no longer.
pub fn set_stderr_mirror(diagnostics: &mut Diagnostics, enabled: bool)
    ensures
        *final(diagnostics) == (Diagnostics { stderr_mirror: enabled, ..*old(diagnostics) }),
{
    diagnostics.stderr_mirror = enabled;
}

/// The values of `MCP_POOL_DEBUG` that turn diagnostics on.
pub open spec fn is_truthy(value: Seq<char>) -> bool {
    value == "1"@ || value == "true"@ || value == "TRUE"@ || value == "yes"@
}

/// Turns diagnostics on or off as the value of `MCP_POOL_DEBUG` says; without a
/// value they stay as they are.
pub fn init_from_env(diagnostics: &mut Diagnostics, value: Option<&str>)
    ensures
        *final(diagnostics) == (match value {
            Some(text) => Diagnostics { enabled: is_truthy(text@), ..*old(diagnostics) },
            None => *old(diagnostics),
        }),
{
    if let Some(text) = value {
        let truthy = same_text(text, "1") || same_text(text, "true") || same_text(text, "TRUE")
            || same_text(text, "yes");
        set_enabled(diagnostics, truthy);
    }
}

/// The directory of the log file; `None` where there is no state directory.
pub open spec fn log_dir_path(directories: Directories) -> Option<Seq<char>> {
    match directories.state_dir_path() {
        Ok(state) => Some(config::joined(directories.platform, state, "logs"@)),
        Err(_) => None,
    }
}

/// The directory of the log file; `None` where there is no state directory.
pub fn log_dir(directories: &Directories) -> (path: Option<String>)
    ensures
        text::text_of(path) == log_dir_path(*directories),
{
    match state_dir(directories) {
        Ok(state) => Some(join(directories.platform, state.as_str(), "logs")),
        Err(_) => None,
    }
}

/// The number of bytes of a character in UTF-8.
pub open spec fn byte_width(ch: char) -> nat {
    let code = ch as u32;
    if code < 0x80 {
        1
    } else if code < 0x800 {
        2
    } else if code < 0x10000 {
        3
    } else {
        4
    }
}

/// The number of bytes of a text in UTF-8.
pub open spec fn byte_length(text: Seq<char>) -> nat {
    utf8::encode_utf8(text).len()
}

/// How many characters, taken from the start, fit into `budget` bytes.
pub open spec fn fitting(text: Seq<char>, budget: nat) -> nat
    decreases text.len(),
{
    if text.len() == 0 || byte_width(text[0]) > budget {
        0
    } else {
        1 + fitting(text.drop_first(), (budget - byte_width(text[0])) as nat)
    }
}

/// What is logged for a line: a short one as it is, of a long one the characters
/// that fit, with a marker that gives the length of the whole in bytes.
pub open spec fn summary(line: Seq<char>) -> Seq<char> {
    if byte_length(line) <= MAX_LOG_LINE_LEN {
        line
    } else {
        line.take(fitting(line, MAX_LOG_LINE_LEN as nat) as int) + " truncated=true original_len="@
            + text::decimal(byte_length(line))
    }
}

proof fn width_is_encoded_length(ch: char)
    ensures
        utf8::encode_scalar(ch as u32).len() == byte_width(ch),
{
    utf8::char_is_scalar(ch);
}

/// What is kept of a long line is the longest start of it that fits, in whole
/// characters.
pub proof fn longest_fitting_start_is_kept(text: Seq<char>, budget: nat)
    ensures
        ({
            let kept = fitting(text, budget);
            &&& kept <= text.len()
            &&& byte_length(text.take(kept as int)) <= budget
            &&& kept < text.len() ==> byte_length(text.take(kept as int + 1)) > budget
        }),
    decreases text.len(),
{
    let kept = fitting(text, budget);
    if text.len() == 0 {
        assert(text.take(0) =~= Seq::empty());
    } else {
        width_is_encoded_length(text[0]);
        if kept == 0 {
            assert(text.take(0) =~= Seq::empty());
            assert(text.take(1)[0] == text[0]);
        } else {
            let rest = text.drop_first();
            longest_fitting_start_is_kept(rest, (budget - byte_width(text[0])) as nat);
            assert(text.take(kept as int).drop_first() =~= rest.take(kept - 1));
            if kept < text.len() {
                assert(text.take(kept as int + 1).drop_first() =~= rest.take(kept as int));
            }
        }
    }
}

/// What is logged for a line.
pub fn summarize_log_line(line: &str) -> (logged: String)
    ensures
        logged@ == summary(line@),
{
    let len: usize = line.as_bytes().len();
    if len <= MAX_LOG_LINE_LEN {
        return line.to_owned();
    }
    let chars = text::chars_of(line);
    let mut logged = String::new();
    let mut budget: usize = MAX_LOG_LINE_LEN;
    let mut i: usize = 0;
    proof {
        assert(line@.skip(0) =~= line@);
    }
    while i < chars.len() && width_of(chars[i]) <= budget
        invariant
            i <= chars.len(),
            chars@ == line@,
            logged@ == line@.take(i as int),
            fitting(line@, MAX_LOG_LINE_LEN as nat) == i + fitting(
                line@.skip(i as int),
                budget as nat,
            ),
        decreases chars.len() - i,
    {
        proof {
            assert(line@.skip(i as int).drop_first() =~= line@.skip(i + 1));
            assert(line@.take(i + 1) =~= line@.take(i as int).push(line@[i as int]));
        }
        logged.push(chars[i]);
        budget = budget - width_of(chars[i]);
        i = i + 1;
    }
    logged.append(" truncated=true original_len=");
    logged.append(to_decimal(len as u64).as_str());
    logged
}

fn width_of(ch: char) -> (width: usize)
    ensures
        width == byte_width(ch),
{
    let code: u32 = ch as u32;
    if code < 0x80 {
        1
    } else if code < 0x800 {
        2
    } else if code < 0x10000 {
        3
    } else {
        4
    }
}

/// Where a diagnostic line goes.
#[derive(Debug)]
pub struct LogPlan {
    /// What is written to stderr.
    pub stderr: Option<String>,
    /// What is appended to the log file.
    pub file: Option<LogLine>,
}

/// A line for the log file.
#[derive(Debug)]
pub struct LogLine {
    /// The directory, which is created first.
    pub directory: String,
    pub path: String,
    pub line: String,
}

/// Where a diagnostic line goes: nowhere while diagnostics are off; else to
/// stderr where that is wanted, and to the log file where there is a directory
/// for it.
pub fn log(diagnostics: &Diagnostics, directories: &Directories, message: &str) -> (plan: LogPlan)
    ensures
        match plan.stderr {
            Some(text) => diagnostics.enabled && diagnostics.stderr_mirror && text@ == message@
                + "\n"@,
            None => !(diagnostics.enabled && diagnostics.stderr_mirror),
        },
        match plan.file {
            Some(entry) => {
                &&& diagnostics.enabled
                &&& log_dir_path(*directories) == Some(entry.directory@)
                &&& entry.path@ == config::joined(
                    directories.platform,
                    entry.directory@,
                    "mcp-pool.log"@,
                )
                &&& entry.line@ == message@ + "\n"@
            },
            None => !diagnostics.enabled || log_dir_path(*directories) is None,
        },
{
    if !is_enabled(diagnostics) {
        return LogPlan { stderr: None, file: None };
    }
    let stderr = if diagnostics.stderr_mirror {
        Some(message.to_owned().concat("\n"))
    } else {
        None
    };
    let file = match log_dir(directories) {
        Some(directory) => {
            let path = join(directories.platform, directory.as_str(), "mcp-pool.log");
            Some(LogLine { directory, path, line: message.to_owned().concat("\n") })
        },
        None => None,
    };
    LogPlan { stderr, file }
}

} // verus!
