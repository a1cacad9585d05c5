use mcp_pool::proxy::{
    connect_with_retry, pump, run, start_line, ProxyNext, ProxyStep, PumpAction, PumpEvent,
};
use mcp_pool::transport::Attempt;

fn following(step: ProxyStep, error: Option<&str>) -> (Vec<String>, Result<ProxyStep, String>) {
    let decision = run("echo", step, error);
    let next = match decision.next {
        ProxyNext::Run(step) => Ok(step),
        ProxyNext::Fail(message) => Err(message),
        ProxyNext::Done => Err("done".to_string()),
    };
    (decision.log, next)
}

#[test]
fn live_sockets_are_shared() {
    assert_eq!(start_line("echo", "/s"), "proxy_start name=echo endpoint=/s");
    let (log, next) = following(ProxyStep::Connect, None);
    assert_eq!(log, vec!["proxy_attached_existing name=echo", "proxy_connected name=echo"]);
    assert_eq!(next, Ok(ProxyStep::Bridge));
    assert_eq!(following(ProxyStep::Bridge, None), (vec![], Err("done".to_string())));
}

#[test]
fn other_servers_are_started_first() {
    let (log, next) = following(ProxyStep::Connect, Some("refused"));
    assert_eq!(log, vec!["proxy_autostart name=echo"]);
    assert_eq!(next, Ok(ProxyStep::EnsureStarted));
    let (log, next) = following(ProxyStep::EnsureStarted, None);
    assert!(log.is_empty());
    assert_eq!(next, Ok(ProxyStep::ConnectWithRetry));
    let (log, next) = following(ProxyStep::ConnectWithRetry, None);
    assert_eq!(log, vec!["proxy_connected name=echo"]);
    assert_eq!(next, Ok(ProxyStep::Bridge));
}

#[test]
fn failures_end_the_proxy() {
    assert_eq!(
        following(ProxyStep::EnsureStarted, Some("no config")).1,
        Err("mcp-pool: could not start pool server 'echo': no config\n".to_string())
    );
    assert_eq!(
        following(ProxyStep::ConnectWithRetry, Some("gone")).1,
        Err("mcp-pool: started 'echo' but could not connect to its pool socket (gone)\n"
            .to_string())
    );
}

#[test]
fn fifty_attempts_with_pauses_between() {
    let mut attempts = 0;
    let mut pauses = 0;
    loop {
        match connect_with_retry(attempts) {
            Attempt::Now => {}
            Attempt::After(pause) => {
                assert_eq!(pause, 100);
                pauses += 1;
            }
            Attempt::GiveUp => break,
        }
        attempts += 1;
    }
    assert_eq!((attempts, pauses), (50, 49));
}

/// Runs a pump on a source and a sink in memory.
fn pumped(chunks: &[&[u8]]) -> (Vec<u8>, String) {
    let mut written = Vec::new();
    let mut source = chunks.iter();
    let mut chunk: &[u8] = &[];
    let mut action = PumpAction::Read;
    loop {
        let event = match action {
            PumpAction::Read => {
                chunk = source.next().copied().unwrap_or(&[]);
                PumpEvent::Read(chunk.len())
            }
            PumpAction::Write(bytes) => {
                written.extend_from_slice(&chunk[..bytes]);
                PumpEvent::Written
            }
            PumpAction::Flush => PumpEvent::Flushed,
            PumpAction::Stop(line) => return (written, line),
        };
        action = pump("echo", "stdin->socket", event);
    }
}

#[test]
fn bytes_pass_through_verbatim() {
    let (written, line) = pumped(&[b"one\n", b"\x00\xff", b"two"]);
    assert_eq!(written, b"one\n\x00\xfftwo");
    assert_eq!(line, "proxy_eof name=echo dir=stdin->socket");
}

#[test]
fn errors_end_a_pump() {
    let stop = |event: PumpEvent| match pump("echo", "d", event) {
        PumpAction::Stop(line) => line,
        other => panic!("{other:?}"),
    };
    assert_eq!(stop(PumpEvent::ReadFailed("r")), "proxy_read_failed name=echo dir=d error=r");
    assert_eq!(stop(PumpEvent::WriteFailed("w")), "proxy_write_failed name=echo dir=d error=w");
    assert_eq!(stop(PumpEvent::FlushFailed("f")), "proxy_flush_failed name=echo dir=d error=f");
}
