use mcp_pool::cli::{
    add_server, added_text, build_server_def, colors, confirm, control_round_trip, dry_run_text,
    ensure_daemon, ensure_started, launched_line, list_servers, list_value, normalize_transport, output_mode,
    print_response_data, print_status_table, remove_server, request_line, retry_connect, run,
    send_control, send_request, start_request, str_field, unreachable_daemon_message,
    unreadable_reply_message, use_color, Action, AddOutcome, Cli, Cmd, DaemonNext, DaemonStep, OutputMode, RemoveOutcome, ReplyStep,
    Surroundings,
};
use mcp_pool::config::{Directories, Platform, PoolConfig, ServerDef};
use mcp_pool::control::{ControlRequest, ControlResponse};
use mcp_pool::diagnostics::Diagnostics;
use mcp_pool::json::Json;
use mcp_pool::transport::Attempt;

fn cli(cmd: Cmd) -> Cli {
    Cli { debug: false, json: false, plain: false, no_color: false, cmd }
}

fn terminal() -> Surroundings {
    Surroundings {
        stdout_is_terminal: true,
        no_color_is_set: false,
        term: Some("xterm".to_string()),
        debug: None,
    }
}

fn directories() -> Directories {
    Directories {
        platform: Platform::Unix,
        custom_home: Some("/h".to_string()),
        home: None,
        config: None,
        state: None,
        data_local: None,
    }
}

fn strings(items: &[&str]) -> Vec<String> {
    items.iter().map(|item| item.to_string()).collect()
}

fn some(text: &str) -> Option<String> {
    Some(text.to_string())
}

#[test]
fn output_mode_follows_flags_and_terminal() {
    let mut asked = cli(Cmd::List);
    let mut surroundings = terminal();
    assert_eq!(output_mode(&asked, &surroundings), OutputMode::Table);
    surroundings.stdout_is_terminal = false;
    assert_eq!(output_mode(&asked, &surroundings), OutputMode::Plain);
    surroundings.stdout_is_terminal = true;
    asked.plain = true;
    assert_eq!(output_mode(&asked, &surroundings), OutputMode::Plain);
    asked.json = true;
    assert_eq!(output_mode(&asked, &surroundings), OutputMode::Json);
}

#[test]
fn colors_are_for_capable_terminals() {
    let mut asked = cli(Cmd::List);
    assert!(use_color(&asked, &terminal()));
    assert!(use_color(&asked, &Surroundings { term: None, ..terminal() }));
    assert!(!use_color(&asked, &Surroundings { term: some("dumb"), ..terminal() }));
    assert!(!use_color(&asked, &Surroundings { no_color_is_set: true, ..terminal() }));
    assert!(!use_color(&asked, &Surroundings { stdout_is_terminal: false, ..terminal() }));
    asked.no_color = true;
    assert!(!use_color(&asked, &terminal()));
    assert_eq!(colors(true), ("\x1b[32m", "\x1b[33m", "\x1b[31m", "\x1b[0m"));
    assert_eq!(colors(false), ("", "", "", ""));
}

#[test]
fn commands_become_actions() {
    let action = |cmd: Cmd| run(cli(cmd), &terminal(), &mut Diagnostics::new()).action;
    assert!(matches!(action(Cmd::Serve), Action::Serve));
    assert!(matches!(action(Cmd::List), Action::List));
    assert!(matches!(action(Cmd::Proxy { name: "a".into() }), Action::Proxy { name } if name == "a"));
    assert!(matches!(
        action(Cmd::Remove { name: "a".into(), yes: true }),
        Action::Remove { name, yes: true } if name == "a"
    ));
    assert!(matches!(
        action(Cmd::Start { name: "a".into() }),
        Action::Control(ControlRequest::Start { name }) if name == "a"
    ));
    assert!(matches!(
        action(Cmd::Stop { name: "a".into() }),
        Action::Control(ControlRequest::Stop { name }) if name == "a"
    ));
    assert!(matches!(
        action(Cmd::Restart { name: "a".into() }),
        Action::Control(ControlRequest::Restart { name }) if name == "a"
    ));
    assert!(matches!(
        action(Cmd::Status { name: some("a") }),
        Action::Control(ControlRequest::Status { name: Some(name) }) if name == "a"
    ));
    assert!(matches!(action(Cmd::Shutdown), Action::Control(ControlRequest::Shutdown)));
    let add = Cmd::Add {
        name: "a".into(),
        url: some("u"),
        transport: some("t"),
        command: some("c"),
        dry_run: true,
        trailing: strings(&["x"]),
    };
    match action(add) {
        Action::Add { name, url, transport, command, dry_run, trailing } => {
            assert_eq!((name.as_str(), dry_run, trailing), ("a", true, strings(&["x"])));
            assert_eq!((url, transport, command), (some("u"), some("t"), some("c")));
        }
        other => panic!("{other:?}"),
    }
}

#[test]
fn flag_and_environment_turn_diagnostics_on() {
    let enabled = |debug: bool, value: Option<&str>| {
        let mut diagnostics = Diagnostics::new();
        let surroundings =
            Surroundings { debug: value.map(|text| text.to_string()), ..terminal() };
        run(Cli { debug, ..cli(Cmd::List) }, &surroundings, &mut diagnostics);
        diagnostics.enabled
    };
    assert!(!enabled(false, None));
    assert!(enabled(true, None));
    assert!(enabled(false, Some("1")));
    assert!(!enabled(false, Some("0")));
    assert!(enabled(true, Some("0")));
    assert!(enabled(true, Some("1")));
}

#[test]
fn transports_are_normalized() {
    assert_eq!(normalize_transport("HTTP").unwrap(), "http");
    assert_eq!(normalize_transport("Sse").unwrap(), "sse");
    assert_eq!(
        normalize_transport("StDio").unwrap_err().message(),
        "invalid --transport 'stdio': expected 'http' or 'sse'"
    );
}

#[test]
fn servers_are_built_from_one_source() {
    let def = build_server_def(None, None, None, strings(&["npx", "-y", "x"])).unwrap();
    assert_eq!((def.command.as_str(), def.args), ("npx", strings(&["-y", "x"])));
    assert_eq!((def.url.as_str(), def.transport.as_str()), ("", ""));
    let def = build_server_def(None, None, some("npx"), vec![]).unwrap();
    assert_eq!((def.command.as_str(), def.args.len()), ("npx", 0));
    let def = build_server_def(some("http://x"), None, None, vec![]).unwrap();
    assert_eq!((def.url.as_str(), def.transport.as_str()), ("http://x", "http"));
    assert_eq!(def.command, "");
    let def = build_server_def(some("http://x"), some("SSE"), some(""), vec![]).unwrap();
    assert_eq!((def.url.as_str(), def.transport.as_str()), ("http://x", "sse"));
    let def = build_server_def(None, some("nonsense"), some("npx"), vec![]).unwrap();
    assert_eq!(def.transport, "");
}

#[test]
fn other_sources_are_refused() {
    let refused = |url: Option<&str>, transport: Option<&str>, command: Option<&str>, trailing: &[&str]| {
        build_server_def(
            url.map(String::from),
            transport.map(String::from),
            command.map(String::from),
            strings(trailing),
        )
        .unwrap_err()
        .message()
    };
    let one = "specify exactly one of: --url <URL>  OR  a stdio command (-- COMMAND...)";
    assert_eq!(refused(None, None, None, &[]), one);
    assert_eq!(refused(None, None, Some(""), &[]), one);
    assert_eq!(refused(Some("u"), None, Some("c"), &[]), one);
    assert_eq!(refused(Some("u"), Some("bad"), None, &["c"]), one);
    assert_eq!(
        refused(Some("u"), None, Some("c"), &["d"]),
        "--command cannot be combined with trailing command args"
    );
    assert_eq!(refused(Some("u"), None, None, &["", "d"]), "stdio command must not be empty");
    assert_eq!(
        refused(Some("u"), Some("WS"), None, &[]),
        "invalid --transport 'ws': expected 'http' or 'sse'"
    );
}

/// Adds the server `b`, or has that tried.
fn added(
    url: Option<&str>,
    dry_run: bool,
    loaded: Result<PoolConfig, String>,
) -> Result<AddOutcome, String> {
    add_server("b", url.map(String::from), None, None, dry_run, vec![], loaded)
}

#[test]
fn added_servers_are_saved() {
    let mut config = PoolConfig::default();
    config.upsert("a", ServerDef { command: "npx".into(), ..Default::default() });
    match added(Some("http://x"), false, Ok(config)) {
        Ok(AddOutcome::Save(changed)) => {
            assert_eq!(changed.server.len(), 2);
            assert_eq!(changed.server.get("a").unwrap().command, "npx");
            assert_eq!(changed.server.get("b").unwrap().url, "http://x");
        }
        other => panic!("{other:?}"),
    }
    assert_eq!(added_text("b", "/c"), "added server 'b' -> /c\n");
}

#[test]
fn dry_runs_are_printed_and_never_saved() {
    let mut config = PoolConfig::default();
    config.upsert("a", ServerDef::default());
    assert!(matches!(
        added(Some("u"), true, Ok(config)),
        Ok(AddOutcome::Print(planned)) if planned.server.len() == 2
    ));
    match added(Some("u"), true, Err("bad toml".to_string())) {
        Ok(AddOutcome::Print(planned)) => {
            assert_eq!((planned.server.len(), planned.server.name_at(0)), (1, "b"));
        }
        other => panic!("{other:?}"),
    }
    assert_eq!(dry_run_text("/c", "[server]\n"), "# target: /c\n[server]\n");
}

#[test]
fn unreadable_configurations_are_not_overwritten() {
    assert_eq!(added(Some("u"), false, Err("bad toml".to_string())).unwrap_err(), "bad toml");
    for dry_run in [true, false] {
        assert_eq!(
            added(None, dry_run, Err("bad toml".to_string())).unwrap_err(),
            "specify exactly one of: --url <URL>  OR  a stdio command (-- COMMAND...)"
        );
    }
}

#[test]
fn removal_is_confirmed_at_a_terminal() {
    let mut config = PoolConfig::default();
    config.upsert("a", ServerDef::default());
    assert!(matches!(
        remove_server(&mut config, "x", true, true, None),
        RemoveOutcome::NotConfigured(message) if message == "mcp-pool: 'x' is not configured\n"
    ));
    assert!(matches!(
        remove_server(&mut config, "a", false, true, None),
        RemoveOutcome::Ask(question) if question == "remove server 'a'? [y/N] "
    ));
    assert!(matches!(
        remove_server(&mut config, "a", false, true, Some(false)),
        RemoveOutcome::Aborted(text) if text == "aborted\n"
    ));
    assert_eq!(config.server.len(), 1);
    assert!(matches!(
        remove_server(&mut config, "a", false, true, Some(true)),
        RemoveOutcome::Removed(text) if text == "removed server 'a'\n"
    ));
    assert_eq!(config.server.len(), 0);
    for (yes, at_terminal) in [(true, true), (true, false), (false, false)] {
        config.upsert("a", ServerDef::default());
        let outcome = remove_server(&mut config, "a", yes, at_terminal, None);
        assert!(matches!(outcome, RemoveOutcome::Removed(_)));
        assert_eq!(config.server.len(), 0);
    }
}

#[test]
fn only_an_explicit_yes_confirms() {
    for line in ["y\n", "Y", " yes \r\n", "YeS\n"] {
        assert!(confirm(Some(line)));
    }
    for line in ["", "\n", "n\n", "yess\n", "ja\n"] {
        assert!(!confirm(Some(line)));
    }
    assert!(!confirm(None));
}

fn two_servers() -> PoolConfig {
    let mut config = PoolConfig::default();
    config.upsert("remote", ServerDef { url: "http://x".into(), ..Default::default() });
    config.upsert("echo", ServerDef { command: "npx".into(), ..Default::default() });
    config
}

#[test]
fn servers_are_listed_in_each_mode() {
    let config = two_servers();
    assert_eq!(
        list_servers(&config, &directories(), OutputMode::Plain),
        "echo\t-\tstdio\t/h/state/run/mcp-pool-echo.sock\n\
         remote\t-\thttp\t/h/state/run/mcp-pool-remote.sock\n"
    );
    assert_eq!(
        list_servers(&config, &directories(), OutputMode::Table),
        format!(
            "{:<20} {:<10} SOCKET\n{:<20} {:<10} {}\n{:<20} {:<10} {}\n",
            "NAME",
            "TRANSPORT",
            "echo",
            "stdio",
            "/h/state/run/mcp-pool-echo.sock",
            "remote",
            "http",
            "/h/state/run/mcp-pool-remote.sock"
        )
    );
    let json = list_servers(&config, &directories(), OutputMode::Json);
    assert!(json.starts_with("[\n  {\n    \"name\": \"echo\",\n    \"socket_path\":"));
    assert!(json.ends_with("\n]\n"));
    assert_eq!(Json::parse(&json), Some(list_value(&config, &directories())));
    assert_eq!(
        list_value(&config, &directories()).to_line(),
        "[{\"name\":\"echo\",\"socket_path\":\"/h/state/run/mcp-pool-echo.sock\",\
         \"transport\":\"stdio\"},{\"name\":\"remote\",\
         \"socket_path\":\"/h/state/run/mcp-pool-remote.sock\",\"transport\":\"http\"}]"
    );
}

#[test]
fn an_empty_configuration_is_listed() {
    let config = PoolConfig::default();
    assert_eq!(list_servers(&config, &directories(), OutputMode::Json), "[]\n");
    assert_eq!(list_servers(&config, &directories(), OutputMode::Plain), "no servers configured\n");
    assert_eq!(list_servers(&config, &directories(), OutputMode::Table), "no servers configured\n");
}

fn report() -> Json {
    Json::parse(
        "{\"servers\":[\
         {\"name\":\"a\",\"status\":\"running\",\"transport\":\"stdio\",\"socket_path\":\"/a\",\"connection_count\":12},\
         {\"name\":\"b\",\"status\":\"starting\",\"transport\":\"http\",\"socket_path\":\"/b\",\"connection_count\":-1},\
         {\"name\":\"c\",\"status\":\"stopped\",\"transport\":7},\
         {\"status\":\"odd\"}]}",
    )
    .unwrap()
}

#[test]
fn status_is_shown_as_a_table() {
    let head = "NAME                 STATUS     TRANSPORT  CONNS  SOCKET\n";
    let report = report();
    assert_eq!(
        print_status_table(Some(&report), None, false, false),
        format!(
            "{head}\
             a                    running    stdio      12     /a\n\
             b                    starting   http       0      /b\n\
             c                    stopped    ?          0      ?\n\
             ?                    odd        ?          0      ?\n"
        )
    );
    assert_eq!(
        print_status_table(Some(&report), Some("b"), false, true),
        format!("{head}b                    \x1b[33mstarting  \x1b[0m http       0      /b\n")
    );
    assert!(print_status_table(Some(&report), Some("a"), false, true).contains("\x1b[32mrunning"));
    assert!(print_status_table(Some(&report), Some("c"), false, true).contains("\x1b[31mstopped"));
    assert!(!print_status_table(Some(&report), Some("?"), false, true).contains('\x1b'));
}

#[test]
fn status_is_shown_as_plain_lines() {
    let report = report();
    assert_eq!(
        print_status_table(Some(&report), None, true, true),
        "a\trunning\tstdio\t/a\nb\tstarting\thttp\t/b\nc\tstopped\t?\t?\n?\todd\t?\t?\n"
    );
    assert_eq!(print_status_table(Some(&report), Some("a"), true, false), "a\trunning\tstdio\t/a\n");
}

#[test]
fn nothing_to_show_is_said() {
    let report = report();
    assert_eq!(
        print_status_table(Some(&report), Some("x"), false, false),
        "server 'x' is not running\n"
    );
    assert_eq!(print_status_table(None, Some("x"), true, false), "server 'x' is not running\n");
    for data in ["{}", "{\"servers\":{}}", "{\"servers\":[]}", "3"] {
        let value = Json::parse(data).unwrap();
        assert_eq!(print_status_table(Some(&value), None, true, false), "no servers running\n");
    }
    assert_eq!(str_field(&report, "servers"), "?");
}

#[test]
fn responses_are_printed() {
    let name = || "echo".to_string();
    let text = |request: ControlRequest, color: bool| {
        print_response_data(&request, None, OutputMode::Table, color)
    };
    assert_eq!(text(ControlRequest::Start { name: name() }, false), "started echo\n");
    assert_eq!(
        text(ControlRequest::Start { name: name() }, true),
        "\x1b[32mstarted\x1b[0m echo\n"
    );
    assert_eq!(text(ControlRequest::Stop { name: name() }, true), "\x1b[33mstopped\x1b[0m echo\n");
    assert_eq!(
        text(ControlRequest::Restart { name: name() }, true),
        "\x1b[32mrestarted\x1b[0m echo\n"
    );
    assert_eq!(
        text(ControlRequest::Shutdown, true),
        "\x1b[33mdaemon shutting down\x1b[0m\n"
    );
    assert_eq!(text(ControlRequest::Status { name: None }, true), "no servers running\n");
    assert_eq!(
        print_response_data(
            &ControlRequest::Status { name: Some("a".to_string()) },
            Some(report()),
            OutputMode::Plain,
            false
        ),
        "a\trunning\tstdio\t/a\n"
    );
    assert_eq!(text(ControlRequest::StartAll, true), "");
    let start = ControlRequest::Start { name: name() };
    assert_eq!(print_response_data(&start, None, OutputMode::Json, true), "{}\n");
    assert_eq!(
        print_response_data(&start, Json::parse("{\"a\":1}"), OutputMode::Json, true),
        "{\n  \"a\": 1\n}\n"
    );
}

#[test]
fn failed_requests_are_reported() {
    let request = start_request("echo");
    assert!(matches!(&request, ControlRequest::Start { name } if name == "echo"));
    assert_eq!(
        control_round_trip(&request, ControlResponse::ok(), OutputMode::Plain, false),
        Ok("started echo\n".to_string())
    );
    assert_eq!(
        control_round_trip(&request, ControlResponse::err("boom"), OutputMode::Json, false),
        Err("mcp-pool: boom\n".to_string())
    );
    let silent = ControlResponse { ok: false, error: None, data: None };
    assert_eq!(ensure_started(&silent), Err("unknown error".to_string()));
    assert_eq!(ensure_started(&ControlResponse::ok()), Ok(()));
}

#[test]
fn empty_replies_are_awaited_once_more() {
    assert_eq!(request_line("{}"), "{}\n");
    assert_eq!(send_request(0, String::new()), None);
    assert_eq!(send_request(3, "{}\n".to_string()).as_deref(), Some("{}\n"));
    assert!(matches!(send_control(0, Some(" {} \n")), ReplyStep::Read(text) if text == "{}"));
    assert!(matches!(send_control(1, Some("{}")), ReplyStep::Read(text) if text == "{}"));
    assert!(matches!(
        send_control(0, None),
        ReplyStep::Retry(line) if line == "control response empty; retrying once"
    ));
    assert!(matches!(
        send_control(1, None),
        ReplyStep::Fail(message) if message == "daemon closed control socket without responding"
    ));
    assert_eq!(unreadable_reply_message("eof"), "parse control response: eof");
}

#[test]
fn a_launched_daemon_is_tried_thirty_times() {
    let mut attempts = 0;
    while retry_connect(attempts) == Attempt::After(100) {
        attempts += 1;
    }
    assert_eq!(attempts, 30);
    assert_eq!(retry_connect(30), Attempt::GiveUp);
    assert_eq!(
        unreachable_daemon_message(Some("refused")),
        "could not reach daemon after launch (refused). Try `mcp-pool serve` manually."
    );
    assert_eq!(
        unreachable_daemon_message(None),
        "could not reach daemon after launch (control socket unreachable). Try `mcp-pool serve` manually."
    );
}

#[test]
fn a_daemon_is_launched_where_none_answers() {
    assert_eq!(ensure_daemon(DaemonStep::Connect, false), DaemonNext::Connected);
    assert_eq!(ensure_daemon(DaemonStep::Connect, true), DaemonNext::Run(DaemonStep::Launch));
    assert_eq!(ensure_daemon(DaemonStep::Launch, false), DaemonNext::Run(DaemonStep::ConnectToLaunched));
    assert_eq!(ensure_daemon(DaemonStep::Launch, true), DaemonNext::Fail);
    assert_eq!(ensure_daemon(DaemonStep::ConnectToLaunched, false), DaemonNext::Connected);
    assert_eq!(ensure_daemon(DaemonStep::ConnectToLaunched, true), DaemonNext::Fail);
    assert_eq!(launched_line("/bin/mcp-pool"), "spawned daemon: /bin/mcp-pool serve");
}
