//! The bridge between an agent's stdio and the socket of a pooled server.

use vstd::prelude::*;

use crate::transport::{Attempt, ATTEMPT_PAUSE_MS, PROXY_ATTEMPTS};

verus! {

/// How long a response may still arrive once the agent has closed stdin, in
/// milliseconds.
pub const DRAIN_GRACE_MS: u64 = 800;

/// How many bytes are moved at once.
pub const PUMP_BUFFER_LEN: usize = 8192;

/// A step of setting up the bridge.
#[derive(Debug, Clone, Copy, PartialEq, Eq, Structural)]
pub enum ProxyStep {
    /// Connect to the server's socket.
    Connect,
    /// Have the daemon start the server.
    EnsureStarted,
    /// Connect to the socket that is being bound.
    ConnectWithRetry,
    /// Move bytes both ways.
    Bridge,
}

/// What follows a step: lines for the log, then the next step or the end.
#[derive(Debug)]
pub struct ProxyDecision {
    pub log: Vec<String>,
    pub next: ProxyNext,
}

/// The next step, or the end.
#[derive(Debug)]
pub enum ProxyNext {
    Run(ProxyStep),
    /// The message goes to stderr, and the process fails.
    Fail(String),
    Done,
}

/// The line that is logged before the first step.
pub fn start_line(name: &str, endpoint: &str) -> (line: String)
    ensures
        line@ == "proxy_start name="@ + name@ + " endpoint="@ + endpoint@,
{
    "proxy_start name=".to_owned().concat(name).concat(" endpoint=").concat(endpoint)
}

/// What follows a step: a server whose socket is live is shared as it is, any
/// other is started first.
pub open spec fn proxy_next(step: ProxyStep, failed: bool) -> Option<ProxyStep> {
    match (step, failed) {
        (ProxyStep::Connect, false) => Some(ProxyStep::Bridge),
        (ProxyStep::Connect, true) => Some(ProxyStep::EnsureStarted),
        (ProxyStep::EnsureStarted, false) => Some(ProxyStep::ConnectWithRetry),
        (ProxyStep::EnsureStarted, true) => None,
        (ProxyStep::ConnectWithRetry, false) => Some(ProxyStep::Bridge),
        (ProxyStep::ConnectWithRetry, true) => None,
        (ProxyStep::Bridge, _) => None,
    }
}

/// What is said of a step whose failure ends the proxy.
pub open spec fn proxy_failure(step: ProxyStep, name: Seq<char>, error: Seq<char>) -> Seq<char> {
    if step == ProxyStep::EnsureStarted {
        "mcp-pool: could not start pool server '"@ + name + "': "@ + error + "\n"@
    } else {
        "mcp-pool: started '"@ + name + "' but could not connect to its pool socket ("@ + error
            + ")\n"@
    }
}

/// What is logged after a step.
pub open spec fn proxy_log(step: ProxyStep, failed: bool, name: Seq<char>) -> Seq<Seq<char>> {
    match (step, failed) {
        (ProxyStep::Connect, false) => seq![
            "proxy_attached_existing name="@ + name,
            "proxy_connected name="@ + name,
        ],
        (ProxyStep::Connect, true) => seq!["proxy_autostart name="@ + name],
        (ProxyStep::ConnectWithRetry, false) => seq!["proxy_connected name="@ + name],
        _ => seq![],
    }
}

/// The texts of several strings.
pub open spec fn texts(strings: Seq<String>) -> Seq<Seq<char>> {
    strings.map_values(|string: String| string@)
}

/// What follows a step of the proxy for the server `name`; `error` is what is said
/// of the step where it failed.
pub fn run(name: &str, step: ProxyStep, error: Option<&str>) -> (decision: ProxyDecision)
    ensures
        texts(decision.log@) == proxy_log(step, error is Some, name@),
        match decision.next {
            ProxyNext::Run(following) => proxy_next(step, error is Some) == Some(following),
            ProxyNext::Fail(message) => proxy_next(step, error is Some) is None && step
                != ProxyStep::Bridge && error is Some && message@ == proxy_failure(
                step,
                name@,
                error->0@,
            ),
            ProxyNext::Done => step == ProxyStep::Bridge,
        },
{
    let mut log: Vec<String> = Vec::new();
    let next = match (step, error) {
        (ProxyStep::Connect, None) => {
            log.push("proxy_attached_existing name=".to_owned().concat(name));
            log.push("proxy_connected name=".to_owned().concat(name));
            ProxyNext::Run(ProxyStep::Bridge)
        },
        (ProxyStep::Connect, Some(_)) => {
            log.push("proxy_autostart name=".to_owned().concat(name));
            ProxyNext::Run(ProxyStep::EnsureStarted)
        },
        (ProxyStep::EnsureStarted, None) => ProxyNext::Run(ProxyStep::ConnectWithRetry),
        (ProxyStep::EnsureStarted, Some(text)) => ProxyNext::Fail(
            "mcp-pool: could not start pool server '".to_owned().concat(name).concat("': ").concat(
                text,
            ).concat("\n"),
        ),
        (ProxyStep::ConnectWithRetry, None) => {
            log.push("proxy_connected name=".to_owned().concat(name));
            ProxyNext::Run(ProxyStep::Bridge)
        },
        (ProxyStep::ConnectWithRetry, Some(text)) => ProxyNext::Fail(
            "mcp-pool: started '".to_owned().concat(name).concat(
                "' but could not connect to its pool socket (",
            ).concat(text).concat(")\n"),
        ),
        (ProxyStep::Bridge, _) => ProxyNext::Done,
    };
    proof {
        assert(texts(log@) =~= proxy_log(step, error is Some, name@));
    }
    ProxyDecision { log, next }
}

/// A server is started only where its socket could not be connected to, and is
/// connected to again only once it was started.
pub proof fn live_servers_are_not_started(step: ProxyStep, failed: bool)
    ensures
        proxy_next(step, failed) == Some(ProxyStep::EnsureStarted) ==> step == ProxyStep::Connect
            && failed,
        proxy_next(step, failed) == Some(ProxyStep::ConnectWithRetry) ==> step
            == ProxyStep::EnsureStarted && !failed,
        proxy_next(step, failed) == Some(ProxyStep::Bridge) ==> !failed && (step
            == ProxyStep::Connect || step == ProxyStep::ConnectWithRetry),
{
}

/// What to do after `failures` failed attempts to connect to a socket that is
/// being bound. There is a pause between attempts, and none after the last one,
/// whose error is the one that is reported.
pub fn connect_with_retry(failures: u32) -> (attempt: Attempt)
    ensures
        attempt == (if failures == 0 {
            Attempt::Now
        } else if failures < PROXY_ATTEMPTS {
            Attempt::After(ATTEMPT_PAUSE_MS)
        } else {
            Attempt::GiveUp
        }),
{
    if failures == 0 {
        Attempt::Now
    } else if failures < PROXY_ATTEMPTS {
        Attempt::After(ATTEMPT_PAUSE_MS)
    } else {
        Attempt::GiveUp
    }
}

/// How the last operation on the two streams of a pump ended.
#[derive(Debug, Clone, Copy)]
pub enum PumpEvent<'a> {
    /// So many bytes were read into the buffer; zero at the end of the stream.
    Read(usize),
    ReadFailed(&'a str),
    Written,
    WriteFailed(&'a str),
    Flushed,
    FlushFailed(&'a str),
}

/// The next operation on the two streams.
#[derive(Debug)]
pub enum PumpAction {
    /// Read into the buffer.
    Read,
    /// Write so many bytes from the start of the buffer.
    Write(usize),
    Flush,
    /// Log the line, and end.
    Stop(String),
}

/// A line about a pump: what happened, to which server's bytes, in which
/// direction.
pub open spec fn pump_line(what: Seq<char>, name: Seq<char>, direction: Seq<char>) -> Seq<char> {
    what + " name="@ + name + " dir="@ + direction
}

fn write_pump_line(what: &str, name: &str, direction: &str) -> (line: String)
    ensures
        line@ == pump_line(what@, name@, direction@),
{
    what.to_owned().concat(" name=").concat(name).concat(" dir=").concat(direction)
}

/// The next operation after a read of so many bytes, where nothing fails; `None`
/// at the end.
pub open spec fn after_read(bytes: usize) -> Option<PumpAction> {
    if bytes == 0 {
        None
    } else {
        Some(PumpAction::Write(bytes))
    }
}

/// The next operation of the pump that moves the bytes of the server `name` in the
/// given direction. All that was read is written, and flushed, before more is
/// read; the end of the stream and any error end the pump.
pub fn pump(name: &str, direction: &str, event: PumpEvent<'_>) -> (action: PumpAction)
    ensures
        match event {
            PumpEvent::Read(bytes) => match after_read(bytes) {
                Some(write) => action == write,
                None => action matches PumpAction::Stop(line) && line@ == pump_line(
                    "proxy_eof"@,
                    name@,
                    direction@,
                ),
            },
            PumpEvent::Written => action is Flush,
            PumpEvent::Flushed => action is Read,
            PumpEvent::ReadFailed(error) => action matches PumpAction::Stop(line) && line@
                == pump_line("proxy_read_failed"@, name@, direction@) + " error="@ + error@,
            PumpEvent::WriteFailed(error) => action matches PumpAction::Stop(line) && line@
                == pump_line("proxy_write_failed"@, name@, direction@) + " error="@ + error@,
            PumpEvent::FlushFailed(error) => action matches PumpAction::Stop(line) && line@
                == pump_line("proxy_flush_failed"@, name@, direction@) + " error="@ + error@,
        },
{
    match event {
        PumpEvent::Read(bytes) => if bytes == 0 {
            PumpAction::Stop(write_pump_line("proxy_eof", name, direction))
        } else {
            PumpAction::Write(bytes)
        },
        PumpEvent::Written => PumpAction::Flush,
        PumpEvent::Flushed => PumpAction::Read,
        PumpEvent::ReadFailed(error) => PumpAction::Stop(
            write_pump_line("proxy_read_failed", name, direction).concat(" error=").concat(error),
        ),
        PumpEvent::WriteFailed(error) => PumpAction::Stop(
            write_pump_line("proxy_write_failed", name, direction).concat(" error=").concat(error),
        ),
        PumpEvent::FlushFailed(error) => PumpAction::Stop(
            write_pump_line("proxy_flush_failed", name, direction).concat(" error=").concat(error),
        ),
    }
}

/// What a pump writes, where nothing fails, when its reads bring `chunks` one after
/// the other.
pub open spec fn pumped(chunks: Seq<Seq<u8>>) -> Seq<u8>
    decreases chunks.len(),
{
    if chunks.len() == 0 {
        Seq::empty()
    } else {
        match after_read(chunks[0].len() as usize) {
            Some(PumpAction::Write(bytes)) => chunks[0].take(bytes as int) + pumped(
                chunks.drop_first(),
            ),
            _ => Seq::empty(),
        }
    }
}

/// Bytes pass through verbatim: what a pump writes is what it reads, up to the end
/// of the stream.
pub proof fn bytes_pass_verbatim(chunks: Seq<Seq<u8>>)
    requires
        forall|i: int|
            0 <= i < chunks.len() ==> 0 < (#[trigger] chunks[i]).len() <= PUMP_BUFFER_LEN,
    ensures
        pumped(chunks.push(Seq::empty())) == chunks.flatten(),
    decreases chunks.len(),
{
    let all = chunks.push(Seq::empty());
    if chunks.len() == 0 {
        assert(pumped(all) =~= chunks.flatten());
    } else {
        let rest = chunks.drop_first();
        assert(all.drop_first() =~= rest.push(Seq::empty()));
        assert(all[0] == chunks[0]);
        assert forall|i: int| 0 <= i < rest.len() implies 0 < (#[trigger] rest[i]).len()
            <= PUMP_BUFFER_LEN by {
            assert(rest[i] == chunks[i + 1]);
        }
        bytes_pass_verbatim(rest);
        assert(chunks[0].take(chunks[0].len() as int) =~= chunks[0]);
        assert(chunks.flatten() =~= chunks[0] + rest.flatten());
    }
}

} // verus!
