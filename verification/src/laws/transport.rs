//! How endpoints are bound and bridged.

use vstd::prelude::*;

use crate::proxy::{self, ProxyDecision, ProxyNext, ProxyStep, PumpAction, PumpEvent};
use crate::transport::{self, Attempt, BindNext, BindStep, StepOutcome};

verus! {

/// An endpoint is bound where a bind succeeded, and only there.
pub proof fn endpoints_are_bound_by_binding(step: BindStep, outcome: StepOutcome, next: BindNext)
    requires
        call_ensures(transport::bind, (step, outcome), next),
    ensures
        next == BindNext::Listening <==> outcome == StepOutcome::Done && (step == BindStep::Bind
            || step == BindStep::Rebind),
{
}

/// A file is removed only where its address is in use and nobody answered on it; where
/// somebody did, binding fails with the first error, and the file stays.
pub proof fn live_sockets_are_never_removed(
    first: BindNext,
    probed: StepOutcome,
    after_probe: BindNext,
    step: BindStep,
    outcome: StepOutcome,
    next: BindNext,
)
    requires
        call_ensures(transport::bind, (BindStep::Bind, StepOutcome::AddressInUse), first),
        call_ensures(transport::bind, (BindStep::Probe, probed), after_probe),
        call_ensures(transport::bind, (step, outcome), next),
    ensures
        first == BindNext::Run(BindStep::Probe),
        probed == StepOutcome::Done ==> after_probe == BindNext::FailWithBindError,
        probed != StepOutcome::Done ==> after_probe == BindNext::Run(BindStep::RemoveStale),
        next == BindNext::Run(BindStep::RemoveStale) ==> step == BindStep::Probe && outcome
            != StepOutcome::Done,
        next == BindNext::Run(BindStep::Probe) ==> step == BindStep::Bind && outcome
            == StepOutcome::AddressInUse,
        next == BindNext::FailWithBindError ==> step == BindStep::Probe && outcome
            == StepOutcome::Done,
{
}

/// The directory is created first, where there is one, and nothing is bound where that
/// failed. A stale file is bound over once, whether or not it could be removed. Any other
/// failure ends the attempt with its own error.
pub proof fn binding_goes_step_by_step(
    has_parent: bool,
    first: BindStep,
    step: BindStep,
    outcome: StepOutcome,
    next: BindNext,
)
    requires
        call_ensures(transport::first_bind_step, (has_parent,), first),
        call_ensures(transport::bind, (step, outcome), next),
    ensures
        has_parent ==> first == BindStep::CreateDirectory,
        !has_parent ==> first == BindStep::Bind,
        next == BindNext::Run(BindStep::Bind) <==> step == BindStep::CreateDirectory && outcome
            == StepOutcome::Done,
        next == BindNext::Run(BindStep::Rebind) <==> step == BindStep::RemoveStale,
        next != BindNext::Run(BindStep::CreateDirectory),
        next == BindNext::FailWithLastError <==> {
            ||| step == BindStep::CreateDirectory && outcome != StepOutcome::Done
            ||| step == BindStep::Bind && outcome == StepOutcome::Failed
            ||| step == BindStep::Rebind && outcome != StepOutcome::Done
        },
{
}

/// A proxy connects fifty times at most: at once, and then after a tenth of a second each
/// time.
pub proof fn proxies_try_fifty_times(failures: u32, attempt: Attempt)
    requires
        call_ensures(proxy::connect_with_retry, (failures,), attempt),
    ensures
        attempt == Attempt::Now <==> failures == 0,
        attempt == Attempt::After(100) <==> 1 <= failures < 50,
        attempt == Attempt::GiveUp <==> failures >= 50,
{
}

/// A socket that answers is bridged at once. One that does not has its server started,
/// and is then connected to again; where either fails, the proxy fails with the reason,
/// and bridges nothing.
pub proof fn silent_servers_are_started_first(
    name: &str,
    step: ProxyStep,
    error: Option<&str>,
    decision: ProxyDecision,
)
    requires
        call_ensures(proxy::run, (name, step, error), decision),
    ensures
        match (step, error) {
            (ProxyStep::Connect, None) => decision.next matches ProxyNext::Run(ProxyStep::Bridge),
            (ProxyStep::Connect, Some(_)) => decision.next matches ProxyNext::Run(
                ProxyStep::EnsureStarted,
            ),
            (ProxyStep::EnsureStarted, None) => decision.next matches ProxyNext::Run(
                ProxyStep::ConnectWithRetry,
            ),
            (ProxyStep::EnsureStarted, Some(reason)) => decision.next matches ProxyNext::Fail(
                message,
            ) && message@ == "mcp-pool: could not start pool server '"@ + name@ + "': "@ + reason@
                + "\n"@,
            (ProxyStep::ConnectWithRetry, None) => decision.next matches ProxyNext::Run(
                ProxyStep::Bridge,
            ),
            (ProxyStep::ConnectWithRetry, Some(reason)) => decision.next matches ProxyNext::Fail(
                message,
            ) && message@ == "mcp-pool: started '"@ + name@
                + "' but could not connect to its pool socket ("@ + reason@ + ")\n"@,
            (ProxyStep::Bridge, _) => decision.next is Done,
        },
{
}

/// The log tells how the proxy got its connection: to a socket that was there, or by
/// starting the server; and that it has one, before it bridges.
pub proof fn the_log_tells_how_a_proxy_connected(
    name: &str,
    step: ProxyStep,
    error: Option<&str>,
    decision: ProxyDecision,
    endpoint: &str,
    start: String,
)
    requires
        call_ensures(proxy::run, (name, step, error), decision),
        call_ensures(proxy::start_line, (name, endpoint), start),
    ensures
        start@ == "proxy_start name="@ + name@ + " endpoint="@ + endpoint@,
        decision.next matches ProxyNext::Run(ProxyStep::Bridge) ==> decision.log@.len() > 0
            && decision.log@.last()@ == "proxy_connected name="@ + name@,
        step == ProxyStep::Connect && error is None ==> decision.log@.len() == 2
            && decision.log@[0]@ == "proxy_attached_existing name="@ + name@,
        step == ProxyStep::Connect && error is Some ==> decision.log@.len() == 1
            && decision.log@[0]@ == "proxy_autostart name="@ + name@,
        step == ProxyStep::ConnectWithRetry && error is None ==> decision.log@.len() == 1,
        step == ProxyStep::EnsureStarted || step == ProxyStep::Bridge || (step
            == ProxyStep::ConnectWithRetry && error is Some) ==> decision.log@.len() == 0,
{
    let lines = proxy::texts(decision.log@);
    assert(lines.len() == decision.log@.len());
    assert forall|i: int| 0 <= i < decision.log@.len() implies #[trigger] lines[i]
        == decision.log@[i]@ by {}
    if decision.log@.len() > 0 {
        assert(lines[0] == decision.log@[0]@);
        assert(lines[decision.log@.len() - 1] == decision.log@.last()@);
    }
}

/// A response that is under way when stdin ends has eight tenths of a second to arrive.
pub proof fn responses_may_still_arrive()
    ensures
        proxy::DRAIN_GRACE_MS == 800,
        proxy::PUMP_BUFFER_LEN == 8192,
{
}

/// What is written of the chunk that was read.
pub open spec fn written_of(chunk: Seq<u8>, action: PumpAction) -> Seq<u8> {
    match action {
        PumpAction::Write(bytes) => chunk.take(bytes as int),
        _ => Seq::empty(),
    }
}

/// Each chunk that a pump reads it writes as it is, no byte more or less.
pub proof fn chunks_pass_unchanged(
    name: &str,
    direction: &str,
    chunk: Seq<u8>,
    bytes: usize,
    action: PumpAction,
)
    requires
        bytes == chunk.len(),
        call_ensures(proxy::pump, (name, direction, PumpEvent::Read(bytes)), action),
    ensures
        written_of(chunk, action) == chunk,
{
    assert(written_of(chunk, action) =~= chunk);
}

/// A pump writes as many bytes as it read, flushes them, and reads on. At the end of the
/// stream, and at any error, it stops and says which, of which server and in which
/// direction.
pub proof fn pumps_write_what_they_read(
    name: &str,
    direction: &str,
    event: PumpEvent<'_>,
    action: PumpAction,
)
    requires
        call_ensures(proxy::pump, (name, direction, event), action),
    ensures
        event matches PumpEvent::Read(bytes) ==> bytes > 0 ==> (action matches PumpAction::Write(
            written,
        ) && written == bytes),
        event is Written ==> action is Flush,
        event is Flushed ==> action is Read,
        action is Stop <==> {
            ||| event == PumpEvent::Read(0)
            ||| event is ReadFailed
            ||| event is WriteFailed
            ||| event is FlushFailed
        },
        ({
            let place = " name="@ + name@ + " dir="@ + direction@;
            match event {
                PumpEvent::Read(bytes) => bytes == 0 ==> (action matches PumpAction::Stop(line)
                    && line@ == "proxy_eof"@ + place),
                PumpEvent::ReadFailed(error) => action matches PumpAction::Stop(line) && line@
                    == "proxy_read_failed"@ + place + " error="@ + error@,
                PumpEvent::WriteFailed(error) => action matches PumpAction::Stop(line) && line@
                    == "proxy_write_failed"@ + place + " error="@ + error@,
                PumpEvent::FlushFailed(error) => action matches PumpAction::Stop(line) && line@
                    == "proxy_flush_failed"@ + place + " error="@ + error@,
                _ => true,
            }
        }),
{
    let place = " name="@ + name@ + " dir="@ + direction@;
    assert(proxy::pump_line("proxy_eof"@, name@, direction@) =~= "proxy_eof"@ + place);
    assert(proxy::pump_line("proxy_read_failed"@, name@, direction@) =~= "proxy_read_failed"@
        + place);
    assert(proxy::pump_line("proxy_write_failed"@, name@, direction@) =~= "proxy_write_failed"@
        + place);
    assert(proxy::pump_line("proxy_flush_failed"@, name@, direction@) =~= "proxy_flush_failed"@
        + place);
}

} // verus!
