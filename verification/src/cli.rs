//! The command line: what each command decides, and what it prints.

use vstd::prelude::*;

use crate::config::{self, server_socket_path, Directories, PoolConfig, ServerDef};
use crate::control::{ControlRequest, ControlResponse};
use crate::diagnostics::{self, init_from_env, set_enabled, Diagnostics};
use crate::json::{self, Json, JsonView};
use crate::text::{self, pad_right, same_text, to_ascii_lower, to_decimal, trim};
use crate::transport::{Attempt, ATTEMPT_PAUSE_MS, DAEMON_ATTEMPTS};
use crate::types::{self, McpServerStatus, PoolStatusResponse};

verus! {

/// A parsed command line.
#[derive(Debug)]
pub struct Cli {
    /// Log diagnostics.
    pub debug: bool,
    /// Print JSON for machines.
    pub json: bool,
    /// Print stable lines: name, status, transport and socket, separated by tabs.
    pub plain: bool,
    /// Print without colors.
    pub no_color: bool,
    pub cmd: Cmd,
}

/// A command.
#[derive(Debug)]
#[allow(inconsistent_fields)]
pub enum Cmd {
    /// Run the daemon in the foreground.
    Serve,
    /// Start a pooled server.
    Start { name: String },
    /// Stop a pooled server.
    Stop { name: String },
    /// Restart a pooled server.
    Restart { name: String },
    /// Show the status of all servers, or of one.
    Status { name: Option<String> },
    /// List the configured servers.
    List,
    /// Add a server to the configuration.
    Add {
        name: String,
        url: Option<String>,
        transport: Option<String>,
        command: Option<String>,
        dry_run: bool,
        trailing: Vec<String>,
    },
    /// Remove a server from the configuration.
    Remove { name: String, yes: bool },
    /// Bridge an agent's stdio to a pool socket.
    Proxy { name: String },
    /// Stop the daemon and all pooled servers.
    Shutdown,
}

/// How results are printed.
#[derive(Debug, Clone, Copy, PartialEq, Eq, Structural)]
pub enum OutputMode {
    Json,
    Plain,
    Table,
}

/// What the environment says about the terminal and the wishes of the user.
#[derive(Debug)]
pub struct Surroundings {
    pub stdout_is_terminal: bool,
    /// Whether `NO_COLOR` is set.
    pub no_color_is_set: bool,
    /// The value of `TERM`.
    pub term: Option<String>,
    /// The value of `MCP_POOL_DEBUG`.
    pub debug: Option<String>,
}

/// How results are printed: as JSON where that is asked for; as plain lines where
/// those are, or where no person reads along; else as a table.
pub open spec fn mode_of(cli: Cli, surroundings: Surroundings) -> OutputMode {
    if cli.json {
        OutputMode::Json
    } else if cli.plain || !surroundings.stdout_is_terminal {
        OutputMode::Plain
    } else {
        OutputMode::Table
    }
}

/// How results are printed.
pub fn output_mode(cli: &Cli, surroundings: &Surroundings) -> (mode: OutputMode)
    ensures
        mode == mode_of(*cli, *surroundings),
{
    if cli.json {
        OutputMode::Json
    } else if cli.plain || !surroundings.stdout_is_terminal {
        OutputMode::Plain
    } else {
        OutputMode::Table
    }
}

/// Whether colors are used: on a terminal that is not dumb, unless they are turned
/// off.
pub open spec fn color_of(cli: Cli, surroundings: Surroundings) -> bool {
    &&& !cli.no_color
    &&& !surroundings.no_color_is_set
    &&& text::text_of(surroundings.term) != Some("dumb"@)
    &&& surroundings.stdout_is_terminal
}

/// Whether colors are used.
pub fn use_color(cli: &Cli, surroundings: &Surroundings) -> (color: bool)
    ensures
        color == color_of(*cli, *surroundings),
{
    let dumb = match &surroundings.term {
        Some(term) => same_text(term.as_str(), "dumb"),
        None => false,
    };
    !cli.no_color && !surroundings.no_color_is_set && !dumb && surroundings.stdout_is_terminal
}

/// What a command does.
#[derive(Debug)]
#[allow(inconsistent_fields)]
pub enum Action {
    Serve,
    Proxy { name: String },
    Add {
        name: String,
        url: Option<String>,
        transport: Option<String>,
        command: Option<String>,
        dry_run: bool,
        trailing: Vec<String>,
    },
    Remove { name: String, yes: bool },
    List,
    /// Ask the daemon.
    Control(ControlRequest),
}

/// What a command does.
pub open spec fn action_of(cmd: Cmd) -> Action {
    match cmd {
        Cmd::Serve => Action::Serve,
        Cmd::Start { name } => Action::Control(ControlRequest::Start { name }),
        Cmd::Stop { name } => Action::Control(ControlRequest::Stop { name }),
        Cmd::Restart { name } => Action::Control(ControlRequest::Restart { name }),
        Cmd::Status { name } => Action::Control(ControlRequest::Status { name }),
        Cmd::List => Action::List,
        Cmd::Add { name, url, transport, command, dry_run, trailing } => Action::Add {
            name,
            url,
            transport,
            command,
            dry_run,
            trailing,
        },
        Cmd::Remove { name, yes } => Action::Remove { name, yes },
        Cmd::Proxy { name } => Action::Proxy { name },
        Cmd::Shutdown => Action::Control(ControlRequest::Shutdown),
    }
}

/// A run of the program: how it prints, and what it does.
#[derive(Debug)]
pub struct RunPlan {
    pub mode: OutputMode,
    pub color: bool,
    pub action: Action,
}

/// What a run of the program does. The diagnostics are turned on where the command
/// line asks for them, whatever `MCP_POOL_DEBUG` holds; else they are as its value
/// says, and without a value they stay as they are.
pub fn run(cli: Cli, surroundings: &Surroundings, diagnostics: &mut Diagnostics) -> (plan: RunPlan)
    ensures
        plan.mode == mode_of(cli, *surroundings),
        plan.color == color_of(cli, *surroundings),
        plan.action == action_of(cli.cmd),
        *final(diagnostics) == (Diagnostics {
            enabled: cli.debug || match text::text_of(surroundings.debug) {
                Some(value) => diagnostics::is_truthy(value),
                None => old(diagnostics).enabled,
            },
            ..*old(diagnostics)
        }),
{
    let debug = match &surroundings.debug {
        Some(value) => Some(value.as_str()),
        None => None,
    };
    init_from_env(diagnostics, debug);
    if cli.debug {
        set_enabled(diagnostics, true);
    }
    let mode = output_mode(&cli, surroundings);
    let color = use_color(&cli, surroundings);
    let action = match cli.cmd {
        Cmd::Serve => Action::Serve,
        Cmd::Start { name } => Action::Control(ControlRequest::Start { name }),
        Cmd::Stop { name } => Action::Control(ControlRequest::Stop { name }),
        Cmd::Restart { name } => Action::Control(ControlRequest::Restart { name }),
        Cmd::Status { name } => Action::Control(ControlRequest::Status { name }),
        Cmd::List => Action::List,
        Cmd::Add { name, url, transport, command, dry_run, trailing } => Action::Add {
            name,
            url,
            transport,
            command,
            dry_run,
            trailing,
        },
        Cmd::Remove { name, yes } => Action::Remove { name, yes },
        Cmd::Proxy { name } => Action::Proxy { name },
        Cmd::Shutdown => Action::Control(ControlRequest::Shutdown),
    };
    RunPlan { mode, color, action }
}

/// Why a server cannot be added.
#[derive(Debug)]
pub enum AddError {
    /// Both `--command` and trailing arguments were given.
    CommandWithTrailing,
    /// The first trailing argument is empty.
    EmptyCommand,
    /// Neither a URL nor a command was given, or both were.
    NotExactlyOneSource,
    /// No transport has this name, given in lower case.
    InvalidTransport(String),
}

/// Why a server cannot be added.
pub enum AddFailure {
    CommandWithTrailing,
    EmptyCommand,
    NotExactlyOneSource,
    InvalidTransport(Seq<char>),
}

impl View for AddError {
    type V = AddFailure;

    open spec fn view(&self) -> AddFailure {
        match self {
            AddError::CommandWithTrailing => AddFailure::CommandWithTrailing,
            AddError::EmptyCommand => AddFailure::EmptyCommand,
            AddError::NotExactlyOneSource => AddFailure::NotExactlyOneSource,
            AddError::InvalidTransport(name) => AddFailure::InvalidTransport(name@),
        }
    }
}

/// What is said of a failure.
pub open spec fn add_failure_text(failure: AddFailure) -> Seq<char> {
    match failure {
        AddFailure::CommandWithTrailing =>
            "--command cannot be combined with trailing command args"@,
        AddFailure::EmptyCommand => "stdio command must not be empty"@,
        AddFailure::NotExactlyOneSource =>
            "specify exactly one of: --url <URL>  OR  a stdio command (-- COMMAND...)"@,
        AddFailure::InvalidTransport(name) => "invalid --transport '"@ + name
            + "': expected 'http' or 'sse'"@,
    }
}

impl AddError {
    /// What is said of the error.
    pub fn message(&self) -> (message: String)
        ensures
            message@ == add_failure_text(self@),
    {
        match self {
            AddError::CommandWithTrailing =>
                "--command cannot be combined with trailing command args".to_owned(),
            AddError::EmptyCommand => "stdio command must not be empty".to_owned(),
            AddError::NotExactlyOneSource =>
                "specify exactly one of: --url <URL>  OR  a stdio command (-- COMMAND...)".to_owned(),
            AddError::InvalidTransport(name) => "invalid --transport '".to_owned().concat(
                name.as_str(),
            ).concat("': expected 'http' or 'sse'"),
        }
    }
}

/// The remote transport with the given name, in capital letters or not.
pub open spec fn transport_named(name: Seq<char>) -> Result<Seq<char>, AddFailure> {
    let lowered = text::ascii_lowered(name);
    if lowered == "http"@ || lowered == "sse"@ {
        Ok(lowered)
    } else {
        Err(AddFailure::InvalidTransport(lowered))
    }
}

/// The remote transport with the given name, in capital letters or not.
pub fn normalize_transport(value: &str) -> (transport: Result<String, AddError>)
    ensures
        match transport {
            Ok(name) => transport_named(value@) == Ok::<Seq<char>, AddFailure>(name@),
            Err(error) => transport_named(value@) == Err::<Seq<char>, AddFailure>(error@),
        },
{
    let lowered = to_ascii_lower(value);
    if same_text(lowered.as_str(), "http") || same_text(lowered.as_str(), "sse") {
        Ok(lowered)
    } else {
        Err(AddError::InvalidTransport(lowered))
    }
}

/// A server to be added: what its definition says. All else in it is empty.
pub struct PlannedServer {
    pub command: Seq<char>,
    pub args: Seq<String>,
    pub url: Seq<char>,
    pub transport: Seq<char>,
}

/// The stdio command and its arguments that a command line gives. The command is
/// empty where it gives none.
pub open spec fn stdio_source(command: Option<Seq<char>>, trailing: Seq<String>) -> Result<
    (Seq<char>, Seq<String>),
    AddFailure,
> {
    match command {
        Some(given) => if trailing.len() == 0 {
            Ok((given, Seq::empty()))
        } else {
            Err(AddFailure::CommandWithTrailing)
        },
        None => if trailing.len() == 0 {
            Ok((Seq::empty(), Seq::empty()))
        } else if trailing[0]@.len() == 0 {
            Err(AddFailure::EmptyCommand)
        } else {
            Ok((trailing[0]@, trailing.drop_first()))
        },
    }
}

/// The server that a command line describes: exactly one of a URL and a stdio
/// command has to be given. A transport has a meaning only beside a URL.
pub open spec fn planned_server(
    url: Option<Seq<char>>,
    transport: Option<Seq<char>>,
    command: Option<Seq<char>>,
    trailing: Seq<String>,
) -> Result<PlannedServer, AddFailure> {
    match stdio_source(command, trailing) {
        Err(failure) => Err(failure),
        Ok((stdio_command, args)) => match url {
            Some(address) => if stdio_command.len() > 0 {
                Err(AddFailure::NotExactlyOneSource)
            } else {
                let name = match transport {
                    Some(given) => transport_named(given),
                    None => Ok("http"@),
                };
                match name {
                    Ok(found) => Ok(
                        PlannedServer {
                            command: Seq::empty(),
                            args: Seq::empty(),
                            url: address,
                            transport: found,
                        },
                    ),
                    Err(failure) => Err(failure),
                }
            },
            None => if stdio_command.len() > 0 {
                Ok(
                    PlannedServer {
                        command: stdio_command,
                        args,
                        url: Seq::empty(),
                        transport: Seq::empty(),
                    },
                )
            } else {
                Err(AddFailure::NotExactlyOneSource)
            },
        },
    }
}

/// Whether a definition says what was planned, and nothing more.
pub open spec fn says(def: ServerDef, planned: PlannedServer) -> bool {
    &&& def.command@ == planned.command
    &&& def.args@ == planned.args
    &&& def.env@ == Map::<Seq<char>, String>::empty()
    &&& def.url@ == planned.url
    &&& def.transport@ == planned.transport
    &&& def.description@.len() == 0
}

/// All but the first of several strings.
fn rest_of(strings: &Vec<String>) -> (rest: Vec<String>)
    requires
        strings@.len() > 0,
    ensures
        rest@ == strings@.drop_first(),
{
    let mut rest: Vec<String> = Vec::new();
    let mut i: usize = 1;
    while i < strings.len()
        invariant
            1 <= i <= strings.len(),
            rest@ == strings@.subrange(1, i as int),
        decreases strings.len() - i,
    {
        rest.push(strings[i].clone());
        i = i + 1;
        proof {
            assert(strings@.subrange(1, i as int) =~= strings@.subrange(1, i - 1).push(
                strings@[i - 1],
            ));
        }
    }
    proof {
        assert(strings@.subrange(1, i as int) =~= strings@.drop_first());
    }
    rest
}

/// The definition of the server that a command line describes.
pub fn build_server_def(
    url: Option<String>,
    transport: Option<String>,
    command: Option<String>,
    trailing: Vec<String>,
) -> (result: Result<ServerDef, AddError>)
    ensures
        ({
            let planned = planned_server(
                text::text_of(url),
                text::text_of(transport),
                text::text_of(command),
                trailing@,
            );
            match result {
                Ok(def) => planned is Ok && says(def, planned->Ok_0),
                Err(error) => planned == Err::<PlannedServer, AddFailure>(error@),
            }
        }),
{
    let (stdio_command, args): (String, Vec<String>) = match command {
        Some(given) => {
            if trailing.len() > 0 {
                return Err(AddError::CommandWithTrailing);
            }
            (given, Vec::new())
        },
        None => if trailing.len() == 0 {
            (String::new(), Vec::new())
        } else {
            if trailing[0].as_str().is_empty() {
                return Err(AddError::EmptyCommand);
            }
            (trailing[0].clone(), rest_of(&trailing))
        },
    };
    let has_stdio = !stdio_command.as_str().is_empty();
    proof {
        assert(args@ =~= stdio_source(text::text_of(command), trailing@)->Ok_0.1);
        assert(stdio_command@ =~= stdio_source(text::text_of(command), trailing@)->Ok_0.0);
    }
    let mut def = ServerDef::default();
    match url {
        Some(address) => {
            if has_stdio {
                return Err(AddError::NotExactlyOneSource);
            }
            def.transport = match transport {
                Some(given) => match normalize_transport(given.as_str()) {
                    Ok(name) => name,
                    Err(error) => return Err(error),
                },
                None => "http".to_owned(),
            };
            def.url = address;
        },
        None => {
            if !has_stdio {
                return Err(AddError::NotExactlyOneSource);
            }
            def.command = stdio_command;
            def.args = args;
        },
    }
    proof {
        let planned = planned_server(
            text::text_of(url),
            text::text_of(transport),
            text::text_of(command),
            trailing@,
        )->Ok_0;
        assert(def.command@ =~= planned.command);
        assert(def.args@ =~= planned.args);
        assert(def.url@ =~= planned.url);
        assert(def.transport@ =~= planned.transport);
    }
    Ok(def)
}

/// A server that can be added is either remote or has a command, unless its URL is
/// empty; and never both.
pub proof fn added_servers_have_one_source(
    url: Option<Seq<char>>,
    transport: Option<Seq<char>>,
    command: Option<Seq<char>>,
    trailing: Seq<String>,
)
    requires
        planned_server(url, transport, command, trailing) is Ok,
    ensures
        ({
            let planned = planned_server(url, transport, command, trailing)->Ok_0;
            &&& planned.command.len() == 0 || planned.url.len() == 0
            &&& url is Some ==> planned.url == url->0 && planned.args.len() == 0 && (
            planned.transport == "http"@ || planned.transport == "sse"@)
            &&& url is None ==> planned.command.len() > 0
        }),
{
}

/// What adding a server comes to.
#[derive(Debug)]
pub enum AddOutcome {
    /// The configuration is printed, and nothing is written.
    Print(PoolConfig),
    /// The configuration is written.
    Save(PoolConfig),
}

/// Whether `after` is `before` with the planned server under `name`: every other
/// server is as it was.
pub open spec fn adds(
    before: Map<Seq<char>, ServerDef>,
    after: Map<Seq<char>, ServerDef>,
    name: Seq<char>,
    planned: PlannedServer,
) -> bool {
    &&& after.dom().contains(name)
    &&& says(after[name], planned)
    &&& after == before.insert(name, after[name])
}

/// What adding the server `name`, as the command line describes it, comes to, where
/// `loaded` is what the configuration file gave. A dry run never writes; it starts
/// from an empty configuration where the file could not be loaded. Any other run
/// fails on such a file, so that it is never overwritten.
pub fn add_server(
    name: &str,
    url: Option<String>,
    transport: Option<String>,
    command: Option<String>,
    dry_run: bool,
    trailing: Vec<String>,
    loaded: Result<PoolConfig, String>,
) -> (result: Result<AddOutcome, String>)
    ensures
        match planned_server(
            text::text_of(url),
            text::text_of(transport),
            text::text_of(command),
            trailing@,
        ) {
            Err(failure) => result matches Err(message) && message@ == add_failure_text(failure),
            Ok(planned) => match (dry_run, loaded) {
                (true, Ok(before)) => result matches Ok(AddOutcome::Print(changed)) && adds(
                    before.server@,
                    changed.server@,
                    name@,
                    planned,
                ),
                (true, Err(_)) => result matches Ok(AddOutcome::Print(changed)) && adds(
                    Map::empty(),
                    changed.server@,
                    name@,
                    planned,
                ),
                (false, Ok(before)) => result matches Ok(AddOutcome::Save(changed)) && adds(
                    before.server@,
                    changed.server@,
                    name@,
                    planned,
                ),
                (false, Err(reason)) => result matches Err(message) && message == reason,
            },
        },
        dry_run ==> !(result matches Ok(AddOutcome::Save(_))),
        loaded is Err ==> !(result matches Ok(AddOutcome::Save(_))),
{
    let def = match build_server_def(url, transport, command, trailing) {
        Ok(def) => def,
        Err(error) => return Err(error.message()),
    };
    let mut config = match loaded {
        Ok(config) => config,
        Err(error) => {
            if !dry_run {
                return Err(error);
            }
            PoolConfig::default()
        },
    };
    config.upsert(name, def);
    if dry_run {
        Ok(AddOutcome::Print(config))
    } else {
        Ok(AddOutcome::Save(config))
    }
}

/// What a dry run prints: where the configuration would go, and what it would say.
pub fn dry_run_text(path: &str, toml: &str) -> (text: String)
    ensures
        text@ == "# target: "@ + path@ + "\n"@ + toml@,
{
    "# target: ".to_owned().concat(path).concat("\n").concat(toml)
}

/// What is printed once a server was added.
pub fn added_text(name: &str, path: &str) -> (text: String)
    ensures
        text@ == "added server '"@ + name@ + "' -> "@ + path@ + "\n"@,
{
    "added server '".to_owned().concat(name).concat("' -> ").concat(path).concat("\n")
}

/// What removing a server comes to.
#[derive(Debug)]
pub enum RemoveOutcome {
    /// The message goes to stderr, and the command fails.
    NotConfigured(String),
    /// The question has to be asked first.
    Ask(String),
    /// The text is printed, and nothing changes.
    Aborted(String),
    /// The configuration is written, then the text is printed.
    Removed(String),
}

/// Whether the user has to be asked before a server is removed.
pub open spec fn has_to_ask(yes: bool, stdin_is_terminal: bool) -> bool {
    !yes && stdin_is_terminal
}

/// Removes the server `name` from `pool_config`, where it is configured. Without
/// `--yes`, a person at the terminal is asked first; `answer` is what they said.
pub fn remove_server(
    pool_config: &mut PoolConfig,
    name: &str,
    yes: bool,
    stdin_is_terminal: bool,
    answer: Option<bool>,
) -> (outcome: RemoveOutcome)
    ensures
        final(pool_config).server@ == (if outcome is Removed {
            old(pool_config).server@.remove(name@)
        } else {
            old(pool_config).server@
        }),
        if !old(pool_config).server@.dom().contains(name@) {
            outcome matches RemoveOutcome::NotConfigured(message) && message@ == "mcp-pool: '"@
                + name@ + "' is not configured\n"@
        } else if has_to_ask(yes, stdin_is_terminal) && answer is None {
            outcome matches RemoveOutcome::Ask(question) && question@ == "remove server '"@ + name@
                + "'? [y/N] "@
        } else if has_to_ask(yes, stdin_is_terminal) && answer == Some(false) {
            outcome matches RemoveOutcome::Aborted(text) && text@ == "aborted\n"@
        } else {
            outcome matches RemoveOutcome::Removed(text) && text@ == "removed server '"@ + name@
                + "'\n"@
        },
{
    if !pool_config.server.contains_key(name) {
        return RemoveOutcome::NotConfigured(
            "mcp-pool: '".to_owned().concat(name).concat("' is not configured\n"),
        );
    }
    if !yes && stdin_is_terminal {
        match answer {
            None => {
                return RemoveOutcome::Ask(
                    "remove server '".to_owned().concat(name).concat("'? [y/N] "),
                );
            },
            Some(agreed) => {
                if !agreed {
                    return RemoveOutcome::Aborted("aborted\n".to_owned());
                }
            },
        }
    }
    pool_config.remove(name);
    RemoveOutcome::Removed("removed server '".to_owned().concat(name).concat("'\n"))
}

/// The answers that mean yes.
pub open spec fn means_yes(line: Seq<char>) -> bool {
    let answer = text::ascii_lowered(text::trimmed(line));
    answer == "y"@ || answer == "yes"@
}

/// Whether the line that was read as an answer means yes. Anything but an explicit
/// yes means no, and so does a line that could not be read.
pub fn confirm(line: Option<&str>) -> (agreed: bool)
    ensures
        agreed == (line is Some && means_yes(line->0@)),
{
    match line {
        Some(text) => {
            let answer = to_ascii_lower(trim(text).as_str());
            same_text(answer.as_str(), "y") || same_text(answer.as_str(), "yes")
        },
        None => false,
    }
}

/// The line that plain output has for a server.
pub open spec fn plain_line(
    name: Seq<char>,
    status: Seq<char>,
    transport: Seq<char>,
    socket: Seq<char>,
) -> Seq<char> {
    name + "\t"@ + status + "\t"@ + transport + "\t"@ + socket + "\n"@
}

fn write_plain_line(name: &str, status: &str, transport: &str, socket: &str) -> (line: String)
    ensures
        line@ == plain_line(name@, status@, transport@, socket@),
{
    name.to_owned().concat("\t").concat(status).concat("\t").concat(transport).concat("\t").concat(
        socket,
    ).concat("\n")
}

/// A row of the table of configured servers.
pub open spec fn list_row(name: Seq<char>, transport: Seq<char>, socket: Seq<char>) -> Seq<char> {
    text::padded(name, 20) + " "@ + text::padded(transport, 10) + " "@ + socket + "\n"@
}

fn write_list_row(name: &str, transport: &str, socket: &str) -> (row: String)
    ensures
        row@ == list_row(name@, transport@, socket@),
{
    pad_right(name, 20).concat(" ").concat(pad_right(transport, 10).as_str()).concat(" ").concat(
        socket,
    ).concat("\n")
}

/// What is listed of a configured server in JSON.
pub open spec fn list_entry(name: Seq<char>, transport: Seq<char>, socket: Seq<char>) -> JsonView {
    JsonView::Object(
        Map::<Seq<char>, JsonView>::empty().insert("name"@, JsonView::Str(name)).insert(
            "transport"@,
            JsonView::Str(transport),
        ).insert("socket_path"@, JsonView::Str(socket)),
    )
}

/// Configured servers, in the order in which they are listed.
pub type Entries = Seq<(Seq<char>, ServerDef)>;

/// The plain lines for configured servers. A server that is only configured has no
/// status.
pub open spec fn plain_list(directories: Directories, entries: Entries) -> Seq<char>
    decreases entries.len(),
{
    if entries.len() == 0 {
        Seq::empty()
    } else {
        let (name, def) = entries.last();
        plain_list(directories, entries.drop_last()) + plain_line(
            name,
            "-"@,
            def.effective_transport(),
            directories.server_endpoint(name),
        )
    }
}

/// The rows for configured servers.
pub open spec fn table_list(directories: Directories, entries: Entries) -> Seq<char>
    decreases entries.len(),
{
    if entries.len() == 0 {
        Seq::empty()
    } else {
        let (name, def) = entries.last();
        table_list(directories, entries.drop_last()) + list_row(
            name,
            def.effective_transport(),
            directories.server_endpoint(name),
        )
    }
}

/// The JSON array for configured servers.
pub open spec fn json_list(directories: Directories, entries: Entries) -> Seq<JsonView> {
    entries.map_values(
        |entry: (Seq<char>, ServerDef)|
            list_entry(entry.0, entry.1.effective_transport(), directories.server_endpoint(entry.0)),
    )
}

/// What listing the configured servers prints.
pub open spec fn list_text(directories: Directories, entries: Entries, mode: OutputMode) -> Seq<char> {
    if entries.len() == 0 {
        if mode == OutputMode::Json {
            "[]\n"@
        } else {
            "no servers configured\n"@
        }
    } else {
        match mode {
            OutputMode::Json => json::json_pretty_text(
                JsonView::Array(json_list(directories, entries)),
            ) + "\n"@,
            OutputMode::Plain => plain_list(directories, entries),
            OutputMode::Table => text::padded("NAME"@, 20) + " "@ + text::padded("TRANSPORT"@, 10)
                + " SOCKET\n"@ + table_list(directories, entries),
        }
    }
}

fn write_list_entry(name: &str, transport: &str, socket: &str) -> (entry: Json)
    ensures
        entry@ == list_entry(name@, transport@, socket@),
{
    let mut fields = json::no_fields();
    json::put(&mut fields, "name", Json::string(name));
    json::put(&mut fields, "transport", Json::string(transport));
    json::put(&mut fields, "socket_path", Json::string(socket));
    proof {
        json::object_view(fields);
    }
    Json::Object(fields)
}

/// The JSON value that listing the configured servers prints.
pub fn list_value(pool_config: &PoolConfig, directories: &Directories) -> (value: Json)
    ensures
        value@ == JsonView::Array(json_list(*directories, pool_config.server.entry_seq())),
{
    let count = pool_config.server.len();
    let ghost entries = pool_config.server.entry_seq();
    let mut items: Vec<Json> = Vec::new();
    let mut i: usize = 0;
    while i < count
        invariant
            i <= count,
            count == entries.len(),
            entries == pool_config.server.entry_seq(),
            items@.len() == i,
            forall|j: int|
                0 <= j < i ==> json::json_view(#[trigger] items@[j]) == list_entry(
                    entries[j].0,
                    entries[j].1.effective_transport(),
                    directories.server_endpoint(entries[j].0),
                ),
        decreases count - i,
    {
        let name = pool_config.server.name_at(i);
        let transport = pool_config.server.value_at(i).transport_kind();
        let socket = server_socket_path(directories, name);
        let entry = write_list_entry(name, transport, socket.as_str());
        proof {
            assert(json::json_view(entry) == entry@);
        }
        items.push(entry);
        i = i + 1;
    }
    proof {
        json::items_view_index(items@);
        assert(json::items_view(items@) =~= json_list(*directories, entries));
    }
    Json::Array(items)
}

/// What listing the configured servers prints.
pub fn list_servers(pool_config: &PoolConfig, directories: &Directories, mode: OutputMode) -> (text:
    String)
    ensures
        text@ == list_text(*directories, pool_config.server.entry_seq(), mode),
{
    let count = pool_config.server.len();
    let ghost entries = pool_config.server.entry_seq();
    if count == 0 {
        return if mode == OutputMode::Json {
            "[]\n".to_owned()
        } else {
            "no servers configured\n".to_owned()
        };
    }
    if mode == OutputMode::Json {
        return match list_value(pool_config, directories).to_pretty() {
            Some(pretty) => pretty.concat("\n"),
            None => String::new(),
        };
    }
    let mut lines = String::new();
    let mut i: usize = 0;
    proof {
        assert(lines@ =~= plain_list(*directories, entries.take(0)));
        assert(lines@ =~= table_list(*directories, entries.take(0)));
    }
    while i < count
        invariant
            i <= count,
            count == entries.len(),
            entries == pool_config.server.entry_seq(),
            mode != OutputMode::Json,
            lines@ == (if mode == OutputMode::Plain {
                plain_list(*directories, entries.take(i as int))
            } else {
                table_list(*directories, entries.take(i as int))
            }),
        decreases count - i,
    {
        let name = pool_config.server.name_at(i);
        let transport = pool_config.server.value_at(i).transport_kind();
        let socket = server_socket_path(directories, name);
        let line = if mode == OutputMode::Plain {
            write_plain_line(name, "-", transport, socket.as_str())
        } else {
            write_list_row(name, transport, socket.as_str())
        };
        lines.append(line.as_str());
        i = i + 1;
        proof {
            assert(entries.take(i as int).drop_last() =~= entries.take(i - 1));
        }
    }
    proof {
        assert(entries.take(i as int) =~= entries);
    }
    if mode == OutputMode::Plain {
        lines
    } else {
        pad_right("NAME", 20).concat(" ").concat(pad_right("TRANSPORT", 10).as_str()).concat(
            " SOCKET\n",
        ).concat(lines.as_str())
    }
}

/// The listing depends only on what is configured, not on the order in which it was
/// configured.
pub proof fn listing_follows_from_configuration(a: PoolConfig, b: PoolConfig)
    requires
        crate::names::in_order(a.server.entry_seq()),
        crate::names::in_order(b.server.entry_seq()),
        a.server@ == b.server@,
    ensures
        forall|directories: Directories, mode: OutputMode| #[trigger]
            list_text(directories, a.server.entry_seq(), mode) == list_text(
                directories,
                b.server.entry_seq(),
                mode,
            ),
{
    crate::names::entries_follow_from_map(a.server.entry_seq(), b.server.entry_seq());
}

/// The escape sequences that switch colors: green, yellow, red, and off again. All
/// are empty without colors.
pub open spec fn color_codes(color: bool) -> (Seq<char>, Seq<char>, Seq<char>, Seq<char>) {
    if color {
        ("\x1b[32m"@, "\x1b[33m"@, "\x1b[31m"@, "\x1b[0m"@)
    } else {
        (""@, ""@, ""@, ""@)
    }
}

/// The escape sequences that switch colors: green, yellow, red, and off again.
pub fn colors(color: bool) -> (codes: (&'static str, &'static str, &'static str, &'static str))
    ensures
        (codes.0@, codes.1@, codes.2@, codes.3@) == color_codes(color),
{
    if color {
        ("\x1b[32m", "\x1b[33m", "\x1b[31m", "\x1b[0m")
    } else {
        ("", "", "", "")
    }
}

/// A string field of a server's report; a question mark where there is none.
pub open spec fn field_text(server: JsonView, key: Seq<char>) -> Seq<char> {
    match server.get(key) {
        Some(JsonView::Str(string)) => string,
        _ => "?"@,
    }
}

/// A string field of a server's report; a question mark where there is none.
pub fn str_field<'a>(value: &'a Json, key: &str) -> (string: &'a str)
    ensures
        string@ == field_text(value@, key@),
{
    match value.get(key) {
        Some(field) => match field.as_str() {
            Some(string) => string,
            None => "?",
        },
        None => "?",
    }
}

/// Whether a server's report is shown: that of the server asked for, or any.
pub open spec fn is_shown(server: JsonView, filter: Option<Seq<char>>) -> bool {
    match filter {
        Some(target) => field_text(server, "name"@) == target,
        None => true,
    }
}

/// The number of connections in a server's report; zero where there is none.
pub open spec fn connections_of(server: JsonView) -> nat {
    match server.get("connection_count"@) {
        Some(count) => match count.as_u64() {
            Some(number) => number as nat,
            None => 0,
        },
        None => 0,
    }
}

/// The row of the status table for a server.
pub open spec fn status_row(server: JsonView, color: bool) -> Seq<char> {
    let (green, yellow, red, reset) = color_codes(color);
    let status = field_text(server, "status"@);
    let (prefix, suffix) = if status == "running"@ {
        (green, reset)
    } else if status == "starting"@ {
        (yellow, reset)
    } else if status == "stopped"@ {
        (red, reset)
    } else {
        (""@, ""@)
    };
    text::padded(field_text(server, "name"@), 20) + " "@ + prefix + text::padded(status, 10) + suffix
        + " "@ + text::padded(field_text(server, "transport"@), 10) + " "@ + text::padded(
        text::decimal(connections_of(server)),
        6,
    ) + " "@ + field_text(server, "socket_path"@) + "\n"@
}

/// The plain line for a server.
pub open spec fn status_line(server: JsonView) -> Seq<char> {
    plain_line(
        field_text(server, "name"@),
        field_text(server, "status"@),
        field_text(server, "transport"@),
        field_text(server, "socket_path"@),
    )
}

/// The rows, or the plain lines, of the servers that are shown.
pub open spec fn status_rows(
    servers: Seq<JsonView>,
    filter: Option<Seq<char>>,
    plain: bool,
    color: bool,
) -> Seq<char>
    decreases servers.len(),
{
    if servers.len() == 0 {
        Seq::empty()
    } else {
        let before = status_rows(servers.drop_last(), filter, plain, color);
        if !is_shown(servers.last(), filter) {
            before
        } else if plain {
            before + status_line(servers.last())
        } else {
            before + status_row(servers.last(), color)
        }
    }
}

/// The servers in the daemon's report.
pub open spec fn reported_servers(data: Option<JsonView>) -> Seq<JsonView> {
    match data {
        Some(report) => match report.get("servers"@) {
            Some(servers) => match servers.as_array() {
                Some(items) => items,
                None => Seq::empty(),
            },
            None => Seq::empty(),
        },
        None => Seq::empty(),
    }
}

/// What is printed of the daemon's report.
pub open spec fn status_text(
    data: Option<JsonView>,
    filter: Option<Seq<char>>,
    plain: bool,
    color: bool,
) -> Seq<char> {
    let servers = reported_servers(data);
    if forall|i: int| 0 <= i < servers.len() ==> !is_shown(#[trigger] servers[i], filter) {
        match filter {
            Some(name) => "server '"@ + name + "' is not running\n"@,
            None => "no servers running\n"@,
        }
    } else if plain {
        status_rows(servers, filter, plain, color)
    } else {
        text::padded("NAME"@, 20) + " "@ + text::padded("STATUS"@, 10) + " "@ + text::padded(
            "TRANSPORT"@,
            10,
        ) + " "@ + text::padded("CONNS"@, 6) + " SOCKET\n"@ + status_rows(
            servers,
            filter,
            plain,
            color,
        )
    }
}

/// What the pool reports is what is shown: each server of the report, in its order,
/// with its own name, status, transport, socket and number of connections.
pub proof fn reports_are_shown_as_they_are(status: PoolStatusResponse, i: int)
    requires
        0 <= i < status.servers@.len(),
    ensures
        ({
            let servers = reported_servers(Some(types::status_view(status)));
            let report = status.servers@[i];
            &&& servers.len() == status.servers@.len()
            &&& field_text(servers[i], "name"@) == report.name@
            &&& field_text(servers[i], "status"@) == report.status.wording()
            &&& field_text(servers[i], "transport"@) == report.transport@
            &&& field_text(servers[i], "socket_path"@) == report.socket_path@
            &&& connections_of(servers[i]) == report.connection_count
        }),
{
    reveal_strlit("server_count");
    reveal_strlit("servers");
    reveal_strlit("name");
    reveal_strlit("status");
    reveal_strlit("socket_path");
    reveal_strlit("uptime_seconds");
    reveal_strlit("connection_count");
    reveal_strlit("owned");
    reveal_strlit("transport");
    assert("server_count"@.len() == 12 && "servers"@.len() == 7 && "name"@.len() == 4
        && "status"@.len() == 6 && "socket_path"@.len() == 11 && "uptime_seconds"@.len() == 14
        && "connection_count"@.len() == 16 && "owned"@.len() == 5 && "transport"@.len() == 9);
    let report = status.servers@[i];
    let view = |report: McpServerStatus| types::server_view(report);
    let servers = reported_servers(Some(types::status_view(status)));
    assert(servers == status.servers@.map_values(view));
    assert(servers[i] == types::server_view(report));
    let server = types::server_view(report);
    assert(server.get("name"@) == Some(JsonView::Str(report.name@)));
    assert(server.get("status"@) == Some(JsonView::Str(report.status.wording())));
    assert(server.get("transport"@) == Some(JsonView::Str(report.transport@)));
    assert(server.get("socket_path"@) == Some(JsonView::Str(report.socket_path@)));
    assert(server.get("connection_count"@) == Some(JsonView::Int(report.connection_count as int)));
}

fn write_status_row(server: &Json, color: bool) -> (row: String)
    ensures
        row@ == status_row(server@, color),
{
    let (green, yellow, red, reset) = colors(color);
    let status = str_field(server, "status");
    let (prefix, suffix) = if same_text(status, "running") {
        (green, reset)
    } else if same_text(status, "starting") {
        (yellow, reset)
    } else if same_text(status, "stopped") {
        (red, reset)
    } else {
        ("", "")
    };
    let connections: u64 = match server.get("connection_count") {
        Some(count) => match count.as_u64() {
            Some(number) => number,
            None => 0,
        },
        None => 0,
    };
    pad_right(str_field(server, "name"), 20).concat(" ").concat(prefix).concat(
        pad_right(status, 10).as_str(),
    ).concat(suffix).concat(" ").concat(
        pad_right(str_field(server, "transport"), 10).as_str(),
    ).concat(" ").concat(pad_right(to_decimal(connections).as_str(), 6).as_str()).concat(
        " ",
    ).concat(str_field(server, "socket_path")).concat("\n")
}

/// What is printed of the daemon's report: a table, or plain lines. Where `filter`
/// names a server, only that one is shown.
pub fn print_status_table(
    data: Option<&Json>,
    filter: Option<&str>,
    plain: bool,
    color: bool,
) -> (text: String)
    ensures
        text@ == status_text(
            match data {
                Some(report) => Some(report@),
                None => None,
            },
            match filter {
                Some(name) => Some(name@),
                None => None,
            },
            plain,
            color,
        ),
{
    let ghost target: Option<Seq<char>> = match filter {
        Some(name) => Some(name@),
        None => None,
    };
    let no_items: Vec<Json> = Vec::new();
    let servers: &Vec<Json> = match data {
        Some(report) => match report.get("servers") {
            Some(servers) => match servers.as_array() {
                Some(items) => items,
                None => &no_items,
            },
            None => &no_items,
        },
        None => &no_items,
    };
    let ghost reported = json::items_view(servers@);
    let mut rows = String::new();
    let mut any_shown = false;
    let mut i: usize = 0;
    proof {
        json::items_view_index(servers@);
        assert(rows@ =~= status_rows(reported.take(0), target, plain, color));
    }
    while i < servers.len()
        invariant
            i <= servers.len(),
            reported == json::items_view(servers@),
            reported.len() == servers@.len(),
            forall|j: int| 0 <= j < servers@.len() ==> #[trigger] reported[j] == json::json_view(servers@[j]),
            target == (match filter {
                Some(name) => Some(name@),
                None => None,
            }),
            rows@ == status_rows(reported.take(i as int), target, plain, color),
            any_shown <==> exists|j: int| 0 <= j < i && is_shown(#[trigger] reported[j], target),
        decreases servers.len() - i,
    {
        let server = &servers[i];
        proof {
            assert(server@ == reported[i as int]);
        }
        let shown = match filter {
            Some(name) => same_text(str_field(server, "name"), name),
            None => true,
        };
        if shown {
            any_shown = true;
            let row = if plain {
                write_plain_line(
                    str_field(server, "name"),
                    str_field(server, "status"),
                    str_field(server, "transport"),
                    str_field(server, "socket_path"),
                )
            } else {
                write_status_row(server, color)
            };
            rows.append(row.as_str());
        }
        i = i + 1;
        proof {
            assert(reported.take(i as int).drop_last() =~= reported.take(i - 1));
            assert(reported.take(i as int).last() == reported[i - 1]);
        }
    }
    proof {
        assert(reported.take(i as int) =~= reported);
        assert(reported =~= reported_servers(
            match data {
                Some(report) => Some(report@),
                None => None,
            },
        ));
    }
    if !any_shown {
        return match filter {
            Some(name) => "server '".to_owned().concat(name).concat("' is not running\n"),
            None => "no servers running\n".to_owned(),
        };
    }
    if plain {
        rows
    } else {
        pad_right("NAME", 20).concat(" ").concat(pad_right("STATUS", 10).as_str()).concat(
            " ",
        ).concat(pad_right("TRANSPORT", 10).as_str()).concat(" ").concat(
            pad_right("CONNS", 6).as_str(),
        ).concat(" SOCKET\n").concat(rows.as_str())
    }
}

/// What is printed once the daemon has carried out a request. No command starts all
/// servers, so there are no words for that.
pub open spec fn response_text(
    request: ControlRequest,
    data: Option<JsonView>,
    mode: OutputMode,
    color: bool,
) -> Seq<char> {
    let (green, yellow, red, reset) = color_codes(color);
    if mode == OutputMode::Json {
        match data {
            Some(value) => json::json_pretty_text(value) + "\n"@,
            None => "{}\n"@,
        }
    } else {
        match request {
            ControlRequest::Start { name } => green + "started"@ + reset + " "@ + name@ + "\n"@,
            ControlRequest::Stop { name } => yellow + "stopped"@ + reset + " "@ + name@ + "\n"@,
            ControlRequest::Restart { name } => green + "restarted"@ + reset + " "@ + name@
                + "\n"@,
            ControlRequest::Shutdown => yellow + "daemon shutting down"@ + reset + "\n"@,
            ControlRequest::Status { name } => status_text(
                data,
                text::text_of(name),
                mode == OutputMode::Plain,
                color,
            ),
            ControlRequest::StartAll => Seq::empty(),
        }
    }
}

/// What is printed once the daemon has carried out a request.
pub fn print_response_data(
    request: &ControlRequest,
    data: Option<Json>,
    mode: OutputMode,
    color: bool,
) -> (text: String)
    ensures
        text@ == response_text(*request, json::held(data), mode, color),
{
    if mode == OutputMode::Json {
        let pretty = match data {
            Some(value) => value.to_pretty(),
            None => None,
        };
        return match pretty {
            Some(text) => text.concat("\n"),
            None => "{}\n".to_owned(),
        };
    }
    let (green, yellow, _, reset) = colors(color);
    match request {
        ControlRequest::Start { name } => green.to_owned().concat("started").concat(reset).concat(
            " ",
        ).concat(name.as_str()).concat("\n"),
        ControlRequest::Stop { name } => yellow.to_owned().concat("stopped").concat(reset).concat(
            " ",
        ).concat(name.as_str()).concat("\n"),
        ControlRequest::Restart { name } => green.to_owned().concat("restarted").concat(
            reset,
        ).concat(" ").concat(name.as_str()).concat("\n"),
        ControlRequest::Shutdown => yellow.to_owned().concat("daemon shutting down").concat(
            reset,
        ).concat("\n"),
        ControlRequest::Status { name } => {
            let report = match &data {
                Some(value) => Some(value),
                None => None,
            };
            let filter = match name {
                Some(target) => Some(target.as_str()),
                None => None,
            };
            print_status_table(report, filter, mode == OutputMode::Plain, color)
        },
        ControlRequest::StartAll => String::new(),
    }
}

/// What the daemon's reply to a request comes to: text for stdout, or a message for
/// stderr, with which the command fails.
pub fn control_round_trip(
    request: &ControlRequest,
    response: ControlResponse,
    mode: OutputMode,
    color: bool,
) -> (printed: Result<String, String>)
    ensures
        match printed {
            Ok(text) => response.failure() is None && text@ == response_text(
                *request,
                json::held(response.data),
                mode,
                color,
            ),
            Err(message) => response.failure() is Some && message@ == "mcp-pool: "@
                + response.failure()->0 + "\n"@,
        },
{
    match response.failure_message() {
        Some(message) => Err(
            "mcp-pool: ".to_owned().concat(message.as_str()).concat("\n"),
        ),
        None => Ok(print_response_data(request, response.data, mode, color)),
    }
}

/// The request that starts the server `name`.
pub fn start_request(name: &str) -> (request: ControlRequest)
    ensures
        request matches ControlRequest::Start { name: asked } && asked@ == name@,
{
    ControlRequest::Start { name: name.to_owned() }
}

/// Whether the daemon's reply says that the server runs; else what it says instead.
pub fn ensure_started(response: &ControlResponse) -> (started: Result<(), String>)
    ensures
        match started {
            Ok(()) => response.failure() is None,
            Err(message) => response.failure() == Some(message@),
        },
{
    match response.failure_message() {
        Some(message) => Err(message),
        None => Ok(()),
    }
}

/// What follows once a reply was awaited.
#[derive(Debug)]
pub enum ReplyStep {
    /// Read the text as the daemon's reply.
    Read(String),
    /// Log the line, and send the request once more.
    Retry(String),
    /// Fail with the message.
    Fail(String),
}

/// What follows once a reply was awaited. A daemon that is going down may accept a
/// connection and close it without a reply: the request is then sent once more.
pub fn send_control(earlier_attempts: u32, reply: Option<&str>) -> (step: ReplyStep)
    ensures
        match reply {
            Some(line) => step matches ReplyStep::Read(text) && text@ == text::trimmed(line@),
            None => if earlier_attempts == 0 {
                step matches ReplyStep::Retry(line) && line@
                    == "control response empty; retrying once"@
            } else {
                step matches ReplyStep::Fail(message) && message@
                    == "daemon closed control socket without responding"@
            },
        },
{
    match reply {
        Some(line) => ReplyStep::Read(trim(line)),
        None => if earlier_attempts == 0 {
            ReplyStep::Retry("control response empty; retrying once".to_owned())
        } else {
            ReplyStep::Fail("daemon closed control socket without responding".to_owned())
        },
    }
}

/// The line for a request that was written as `serialized`.
pub fn request_line(serialized: &str) -> (line: String)
    ensures
        line@ == serialized@ + "\n"@,
{
    serialized.to_owned().concat("\n")
}

/// The reply that was read, `bytes` long: none where the daemon closed the
/// connection at once.
pub fn send_request(bytes: usize, line: String) -> (reply: Option<String>)
    ensures
        reply == (if bytes == 0 {
            None
        } else {
            Some(line)
        }),
{
    if bytes == 0 {
        None
    } else {
        Some(line)
    }
}

/// What is said of a reply that cannot be read.
pub fn unreadable_reply_message(error: &str) -> (message: String)
    ensures
        message@ == "parse control response: "@ + error@,
{
    "parse control response: ".to_owned().concat(error)
}

/// A step on the way to the daemon.
#[derive(Debug, Clone, Copy, PartialEq, Eq, Structural)]
pub enum DaemonStep {
    /// Connect to the control socket.
    Connect,
    /// Launch the daemon.
    Launch,
    /// Connect to the daemon that was launched.
    ConnectToLaunched,
}

/// What follows a step on the way to the daemon.
#[derive(Debug, Clone, Copy, PartialEq, Eq, Structural)]
pub enum DaemonNext {
    Run(DaemonStep),
    /// The daemon is reached.
    Connected,
    /// Fail with the error of the step.
    Fail,
}

/// What follows a step on the way to the daemon: one that nobody answers for is
/// launched, once.
pub open spec fn daemon_next(step: DaemonStep, failed: bool) -> DaemonNext {
    match (step, failed) {
        (DaemonStep::Connect, false) => DaemonNext::Connected,
        (DaemonStep::Connect, true) => DaemonNext::Run(DaemonStep::Launch),
        (DaemonStep::Launch, false) => DaemonNext::Run(DaemonStep::ConnectToLaunched),
        (DaemonStep::Launch, true) => DaemonNext::Fail,
        (DaemonStep::ConnectToLaunched, false) => DaemonNext::Connected,
        (DaemonStep::ConnectToLaunched, true) => DaemonNext::Fail,
    }
}

/// What follows a step on the way to the daemon.
pub fn ensure_daemon(step: DaemonStep, failed: bool) -> (next: DaemonNext)
    ensures
        next == daemon_next(step, failed),
{
    match step {
        DaemonStep::Connect => if failed {
            DaemonNext::Run(DaemonStep::Launch)
        } else {
            DaemonNext::Connected
        },
        DaemonStep::Launch => if failed {
            DaemonNext::Fail
        } else {
            DaemonNext::Run(DaemonStep::ConnectToLaunched)
        },
        DaemonStep::ConnectToLaunched => if failed {
            DaemonNext::Fail
        } else {
            DaemonNext::Connected
        },
    }
}

/// A daemon that answers is not launched again, and one that was launched is the
/// one that is connected to.
pub proof fn live_daemons_are_not_launched(step: DaemonStep, failed: bool)
    ensures
        daemon_next(step, failed) == DaemonNext::Run(DaemonStep::Launch) <==> step
            == DaemonStep::Connect && failed,
        daemon_next(step, failed) == DaemonNext::Run(DaemonStep::ConnectToLaunched) <==> step
            == DaemonStep::Launch && !failed,
        daemon_next(step, failed) != DaemonNext::Run(DaemonStep::Connect),
        daemon_next(step, failed) == DaemonNext::Connected <==> step != DaemonStep::Launch && !failed,
{
}

/// What is logged once the daemon was launched.
pub fn launched_line(executable: &str) -> (line: String)
    ensures
        line@ == "spawned daemon: "@ + executable@ + " serve"@,
{
    "spawned daemon: ".to_owned().concat(executable).concat(" serve")
}

/// What to do after `failures` failed attempts to connect to a daemon that was just
/// launched. There is a pause before each attempt.
pub fn retry_connect(failures: u32) -> (attempt: Attempt)
    ensures
        attempt == (if failures < DAEMON_ATTEMPTS {
            Attempt::After(ATTEMPT_PAUSE_MS)
        } else {
            Attempt::GiveUp
        }),
{
    if failures < DAEMON_ATTEMPTS {
        Attempt::After(ATTEMPT_PAUSE_MS)
    } else {
        Attempt::GiveUp
    }
}

/// What is said of a daemon that cannot be reached, with the error of the last
/// attempt.
pub fn unreachable_daemon_message(error: Option<&str>) -> (message: String)
    ensures
        message@ == "could not reach daemon after launch ("@ + (match error {
            Some(text) => text@,
            None => "control socket unreachable"@,
        }) + "). Try `mcp-pool serve` manually."@,
{
    let reason = match error {
        Some(text) => text,
        None => "control socket unreachable",
    };
    "could not reach daemon after launch (".to_owned().concat(reason).concat(
        "). Try `mcp-pool serve` manually.",
    )
}

} // verus!
