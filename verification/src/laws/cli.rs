//! What the commands do, and what they print.

use vstd::prelude::*;

use crate::cli::{
    self, Action, AddError, AddOutcome, Cli, Cmd, DaemonNext, DaemonStep, OutputMode, RemoveOutcome,
    ReplyStep, RunPlan, Surroundings,
};
use crate::config::{Directories, PoolConfig, ServerDef};
use crate::control::{ControlRequest, ControlResponse};
use crate::diagnostics::Diagnostics;
use crate::json::{self, Json, JsonView};
use crate::laws::text::{in_column, is_lowered, is_trimmed, is_trimmed_at};
use crate::transport::Attempt;

verus! {

/// A command becomes the action of its own kind, with the very arguments that were
/// given.
pub proof fn actions_carry_what_was_asked(
    asked: Cli,
    surroundings: &Surroundings,
    diagnostics: &mut Diagnostics,
    plan: RunPlan,
)
    requires
        call_ensures(cli::run, (asked, surroundings, diagnostics), plan),
    ensures
        match asked.cmd {
            Cmd::Serve => plan.action is Serve,
            Cmd::List => plan.action is List,
            Cmd::Proxy { name } => plan.action matches Action::Proxy { name: target } && target
                == name,
            Cmd::Remove { name, yes } => plan.action matches Action::Remove {
                name: target,
                yes: sure,
            } && target == name && sure == yes,
            Cmd::Add { name, url, transport, command, dry_run, trailing } =>
                plan.action matches Action::Add {
                    name: target,
                    url: address,
                    transport: kind,
                    command: program,
                    dry_run: only_planned,
                    trailing: rest,
                } && target == name && address == url && kind == transport && program == command
                    && only_planned == dry_run && rest == trailing,
            Cmd::Start { name } => plan.action matches Action::Control(
                ControlRequest::Start { name: target },
            ) && target == name,
            Cmd::Stop { name } => plan.action matches Action::Control(
                ControlRequest::Stop { name: target },
            ) && target == name,
            Cmd::Restart { name } => plan.action matches Action::Control(
                ControlRequest::Restart { name: target },
            ) && target == name,
            Cmd::Status { name } => plan.action matches Action::Control(
                ControlRequest::Status { name: target },
            ) && target == name,
            Cmd::Shutdown => plan.action matches Action::Control(ControlRequest::Shutdown),
        },
{
}

/// A removal that was not confirmed by `--yes`, typed at a terminal, asks first: until
/// there is an answer, the configuration is as it was.
pub proof fn removal_without_yes_asks_first(
    asked: Cli,
    surroundings: &Surroundings,
    diagnostics: &mut Diagnostics,
    plan: RunPlan,
    pool_config: &mut PoolConfig,
    name: &str,
    yes: bool,
    outcome: RemoveOutcome,
)
    requires
        call_ensures(cli::run, (asked, surroundings, diagnostics), plan),
        asked.cmd matches Cmd::Remove { yes: given, .. } && !given,
        plan.action matches Action::Remove { name: target, yes: sure } && target@ == name@ && sure
            == yes,
        call_ensures(cli::remove_server, (pool_config, name, yes, true, None), outcome),
    ensures
        final(pool_config).server@ == old(pool_config).server@,
        old(pool_config).server@.dom().contains(name@) ==> (outcome matches RemoveOutcome::Ask(
            question,
        ) && question@ == "remove server '"@ + name@ + "'? [y/N] "@),
{
}

/// Diagnostics are on where the command line or a truthy variable asks for them, and
/// only there where the variable is set.
pub proof fn diagnostics_are_on_where_asked_for(
    asked: Cli,
    surroundings: &Surroundings,
    diagnostics: &mut Diagnostics,
    plan: RunPlan,
)
    requires
        call_ensures(cli::run, (asked, surroundings, diagnostics), plan),
    ensures
        asked.debug ==> final(diagnostics).enabled,
        !asked.debug && surroundings.debug is None ==> final(diagnostics).enabled == old(diagnostics).enabled,
        surroundings.debug matches Some(value) ==> !asked.debug ==> (final(diagnostics).enabled <==> (
        value@ == "1"@ || value@ == "true"@ || value@ == "TRUE"@ || value@ == "yes"@)),
        final(diagnostics).stderr_mirror == old(diagnostics).stderr_mirror,
{
}

/// `--json` gives JSON whatever else is asked; a table is only for a person at a
/// terminal who has not asked for plain lines.
pub proof fn modes_follow_flags_and_terminal(
    asked: &Cli,
    surroundings: &Surroundings,
    mode: OutputMode,
)
    requires
        call_ensures(cli::output_mode, (asked, surroundings), mode),
    ensures
        mode == OutputMode::Json <==> asked.json,
        mode == OutputMode::Table <==> !asked.json && !asked.plain
            && surroundings.stdout_is_terminal,
        mode == OutputMode::Plain <==> !asked.json && (asked.plain
            || !surroundings.stdout_is_terminal),
{
}

/// Colors need a terminal that is not dumb, and nobody who turned them off.
pub proof fn colors_are_for_willing_terminals(
    asked: &Cli,
    surroundings: &Surroundings,
    color: bool,
)
    requires
        call_ensures(cli::use_color, (asked, surroundings), color),
    ensures
        color ==> surroundings.stdout_is_terminal && !asked.no_color
            && !surroundings.no_color_is_set,
        color ==> (surroundings.term matches Some(term) ==> term@ != "dumb"@),
        surroundings.stdout_is_terminal && !asked.no_color && !surroundings.no_color_is_set && (
        surroundings.term matches Some(term) ==> term@ != "dumb"@) ==> color,
{
}

/// A run prints as its mode and its colors say.
pub proof fn plans_print_as_the_surroundings_allow(
    asked: Cli,
    surroundings: &Surroundings,
    diagnostics: &mut Diagnostics,
    plan: RunPlan,
    mode: OutputMode,
    color: bool,
)
    requires
        call_ensures(cli::run, (asked, surroundings, diagnostics), plan),
        call_ensures(cli::output_mode, (&asked, surroundings), mode),
        call_ensures(cli::use_color, (&asked, surroundings), color),
    ensures
        plan.mode == mode,
        plan.color == color,
{
}

/// A transport is the given name with its capitals lowered, where that is `http` or
/// `sse`; any other is refused by that name.
pub proof fn transports_are_taken_by_their_own_name(
    value: &str,
    transport: Result<String, AddError>,
    lowered: Seq<char>,
)
    requires
        call_ensures(cli::normalize_transport, (value,), transport),
        is_lowered(value@, lowered),
    ensures
        match transport {
            Ok(name) => name@ == lowered && (lowered == "http"@ || lowered == "sse"@),
            Err(AddError::InvalidTransport(name)) => name@ == lowered && lowered != "http"@
                && lowered != "sse"@,
            Err(_) => false,
        },
{
    crate::laws::text::lowered_is_pointwise(value@);
    crate::laws::text::lowered_is_one(value@, lowered, crate::text::ascii_lowered(value@));
}

/// Whether a definition holds a stdio command with its arguments and nothing else.
pub open spec fn is_stdio_def(def: ServerDef, command: Seq<char>, args: Seq<String>) -> bool {
    &&& def.command@ == command
    &&& def.args@ == args
    &&& def.env@.dom() == Set::<Seq<char>>::empty()
    &&& def.url@.len() == 0
    &&& def.transport@.len() == 0
    &&& def.description@.len() == 0
}

/// Whether a definition holds a URL with its transport and nothing else.
pub open spec fn is_remote_def(def: ServerDef, url: Seq<char>, transport: Seq<char>) -> bool {
    &&& def.command@.len() == 0
    &&& def.args@.len() == 0
    &&& def.env@.dom() == Set::<Seq<char>>::empty()
    &&& def.url@ == url
    &&& def.transport@ == transport
    &&& def.description@.len() == 0
}

/// A server with a URL has that URL, and the transport that was given, in small letters;
/// `http` where none was.
pub proof fn remote_servers_keep_url_and_transport(
    url: String,
    transport: Option<String>,
    command: Option<String>,
    trailing: Vec<String>,
    result: Result<ServerDef, AddError>,
    lowered: Seq<char>,
)
    requires
        call_ensures(cli::build_server_def, (Some(url), transport, command, trailing), result),
        transport matches Some(given) ==> is_lowered(given@, lowered),
        trailing@.len() == 0,
        command matches Some(program) ==> program@.len() == 0,
    ensures
        match transport {
            None => result matches Ok(def) && is_remote_def(def, url@, "http"@),
            Some(_) => if lowered == "http"@ || lowered == "sse"@ {
                result matches Ok(def) && is_remote_def(def, url@, lowered)
            } else {
                result matches Err(AddError::InvalidTransport(name)) && name@ == lowered
            },
        },
{
    if let Some(given) = transport {
        crate::laws::text::lowered_is_pointwise(given@);
        crate::laws::text::lowered_is_one(given@, lowered, crate::text::ascii_lowered(given@));
    }
    assert(Map::<Seq<char>, String>::empty().dom() =~= Set::<Seq<char>>::empty());
}

/// A server with a command has that command and the arguments behind it, in their order.
/// A transport has no meaning for it.
pub proof fn stdio_servers_keep_command_and_arguments(
    transport: Option<String>,
    command: Option<String>,
    trailing: Vec<String>,
    result: Result<ServerDef, AddError>,
)
    requires
        call_ensures(cli::build_server_def, (None, transport, command, trailing), result),
    ensures
        command matches Some(program) ==> trailing@.len() == 0 ==> program@.len() > 0 ==> (
        result matches Ok(def) && is_stdio_def(def, program@, Seq::empty())),
        command is None ==> trailing@.len() > 0 ==> trailing@[0]@.len() > 0 ==> (
        result matches Ok(def) && is_stdio_def(
            def,
            trailing@[0]@,
            trailing@.subrange(1, trailing@.len() as int),
        )),
{
    assert(Map::<Seq<char>, String>::empty().dom() =~= Set::<Seq<char>>::empty());
    if trailing@.len() > 0 {
        assert(trailing@.drop_first() =~= trailing@.subrange(1, trailing@.len() as int));
    }
}

/// A command line that gives no source, or more than one, is refused; each for its own
/// reason.
pub proof fn unclear_sources_are_refused(
    url: Option<String>,
    transport: Option<String>,
    command: Option<String>,
    trailing: Vec<String>,
    result: Result<ServerDef, AddError>,
)
    requires
        call_ensures(cli::build_server_def, (url, transport, command, trailing), result),
    ensures
        command is Some && trailing@.len() > 0 <==> result matches Err(
            AddError::CommandWithTrailing,
        ),
        command is None && trailing@.len() > 0 && trailing@[0]@.len() == 0 <==> result matches Err(
            AddError::EmptyCommand,
        ),
        ({
            let by_command = command is Some && trailing@.len() == 0 && command->0@.len() > 0;
            let by_trailing = command is None && trailing@.len() > 0 && trailing@[0]@.len() > 0;
            let by_neither = trailing@.len() == 0 && (command is None || command->0@.len() == 0);
            result matches Err(AddError::NotExactlyOneSource) <==> {
                ||| url is Some && (by_command || by_trailing)
                ||| url is None && by_neither
            }
        }),
{
}

/// Each refusal says why.
pub proof fn refusals_say_why(error: &AddError, message: String)
    requires
        call_ensures(AddError::message, (error,), message),
    ensures
        match error {
            AddError::CommandWithTrailing => message@
                == "--command cannot be combined with trailing command args"@,
            AddError::EmptyCommand => message@ == "stdio command must not be empty"@,
            AddError::NotExactlyOneSource => message@
                == "specify exactly one of: --url <URL>  OR  a stdio command (-- COMMAND...)"@,
            AddError::InvalidTransport(name) => message@ == "invalid --transport '"@ + name@
                + "': expected 'http' or 'sse'"@,
        },
{
}

/// Whether two definitions hold the same.
pub open spec fn hold_the_same(a: ServerDef, b: ServerDef) -> bool {
    &&& a.command@ == b.command@
    &&& a.args@ == b.args@
    &&& a.env@ == b.env@
    &&& a.url@ == b.url@
    &&& a.transport@ == b.transport@
    &&& a.description@ == b.description@
}

/// The servers in what was loaded; none where nothing could be.
pub open spec fn servers_loaded(loaded: Result<PoolConfig, String>) -> Map<Seq<char>, ServerDef> {
    match loaded {
        Ok(config) => config.server@,
        Err(_) => Map::empty(),
    }
}

/// The servers in what is printed or saved.
pub open spec fn servers_in(outcome: AddOutcome) -> Map<Seq<char>, ServerDef> {
    match outcome {
        AddOutcome::Print(config) => config.server@,
        AddOutcome::Save(config) => config.server@,
    }
}

/// Adding a server puts the definition that the command line builds under its name, and
/// leaves every other server as it was. Only a run that is not dry, over a configuration
/// that could be loaded, has anything saved.
pub proof fn adding_changes_one_server(
    name: &str,
    url: Option<String>,
    transport: Option<String>,
    command: Option<String>,
    dry_run: bool,
    trailing: Vec<String>,
    loaded: Result<PoolConfig, String>,
    result: Result<AddOutcome, String>,
    built: Result<ServerDef, AddError>,
)
    requires
        call_ensures(
            cli::add_server,
            (name, url, transport, command, dry_run, trailing, loaded),
            result,
        ),
        call_ensures(cli::build_server_def, (url, transport, command, trailing), built),
    ensures
        ({
            let before = servers_loaded(loaded);
            match result {
                Ok(outcome) => {
                    let after = servers_in(outcome);
                    &&& built is Ok
                    &&& outcome is Print <==> dry_run
                    &&& outcome is Save ==> loaded is Ok
                    &&& after.dom() == before.dom().insert(name@)
                    &&& hold_the_same(after[name@], built->Ok_0)
                    &&& forall|other: Seq<char>| #[trigger]
                        before.dom().contains(other) && other != name@ ==> after[other]
                            == before[other]
                },
                Err(message) => {
                    ||| built is Err
                    ||| !dry_run && loaded is Err && message == loaded->Err_0
                },
            }
        }),
        built is Ok && (dry_run || loaded is Ok) ==> result is Ok,
{
    if let Ok(outcome) = result {
        let before = servers_loaded(loaded);
        let after = servers_in(outcome);
        assert(after.dom() =~= before.dom().insert(name@));
        assert(after[name@].description@ =~= built->Ok_0.description@);
    }
}

/// A description that cannot be built is refused with the words for its error.
pub proof fn adding_refuses_what_cannot_be_built(
    name: &str,
    url: Option<String>,
    transport: Option<String>,
    command: Option<String>,
    dry_run: bool,
    trailing: Vec<String>,
    loaded: Result<PoolConfig, String>,
    result: Result<AddOutcome, String>,
    error: AddError,
    message: String,
)
    requires
        call_ensures(
            cli::add_server,
            (name, url, transport, command, dry_run, trailing, loaded),
            result,
        ),
        call_ensures(cli::build_server_def, (url, transport, command, trailing), Err(error)),
        call_ensures(AddError::message, (&error,), message),
    ensures
        result matches Err(words) && words@ == message@,
{
}

/// Removing takes away the named server alone, and only once that is certain: `--yes`
/// was given, nobody is at a terminal, or the question was answered with yes.
pub proof fn removing_takes_one_server_and_only_when_sure(
    pool_config: &mut PoolConfig,
    name: &str,
    yes: bool,
    stdin_is_terminal: bool,
    answer: Option<bool>,
    outcome: RemoveOutcome,
)
    requires
        call_ensures(
            cli::remove_server,
            (pool_config, name, yes, stdin_is_terminal, answer),
            outcome,
        ),
    ensures
        ({
            let before = old(pool_config).server@;
            let after = final(pool_config).server@;
            let sure = yes || !stdin_is_terminal || answer == Some(true);
            &&& outcome is Removed <==> before.dom().contains(name@) && sure
            &&& outcome is Removed ==> after.dom() == before.dom().remove(name@)
            &&& outcome !is Removed ==> after == before
            &&& forall|other: Seq<char>| #[trigger]
                before.dom().contains(other) && other != name@ ==> after.dom().contains(other)
                    && after[other] == before[other]
            &&& outcome is NotConfigured <==> !before.dom().contains(name@)
            &&& outcome is Ask <==> before.dom().contains(name@) && !sure && answer is None
            &&& outcome is Aborted <==> before.dom().contains(name@) && !sure && answer == Some(
                false,
            )
        }),
        outcome matches RemoveOutcome::Removed(text) ==> text@ == "removed server '"@ + name@
            + "'\n"@,
        outcome matches RemoveOutcome::NotConfigured(text) ==> text@ == "mcp-pool: '"@ + name@
            + "' is not configured\n"@,
        outcome matches RemoveOutcome::Aborted(text) ==> text@ == "aborted\n"@,
        outcome matches RemoveOutcome::Ask(text) ==> text@ == "remove server '"@ + name@
            + "'? [y/N] "@,
{
    let before = old(pool_config).server@;
    assert(before.remove(name@).dom() =~= before.dom().remove(name@));
    if let Some(agreed) = answer {
        assert(answer == Some(agreed));
    }
}

proof fn trimmed_is_one(text: Seq<char>, a: Seq<char>, b: Seq<char>)
    requires
        is_trimmed(text, a),
        is_trimmed(text, b),
    ensures
        a == b,
{
    let (s1, e1) = choose|start: int, end: int| is_trimmed_at(text, a, start, end);
    let (s2, e2) = choose|start: int, end: int| is_trimmed_at(text, b, start, end);
    if a.len() == 0 && b.len() == 0 {
        assert(a =~= b);
    } else if a.len() == 0 {
        assert(b[0] == text[s2]);
    } else if b.len() == 0 {
        assert(a[0] == text[s1]);
    } else {
        assert(a[0] == text[s1]);
        assert(b[0] == text[s2]);
        assert(a.last() == text[e1 - 1]);
        assert(b.last() == text[e2 - 1]);
    }
}

/// An answer means yes where it is `y` or `yes`, whatever its case and the blanks around
/// it; anything else means no.
pub proof fn only_yes_means_yes(
    line: Option<&str>,
    agreed: bool,
    inner: Seq<char>,
    lowered: Seq<char>,
)
    requires
        call_ensures(cli::confirm, (line,), agreed),
        line matches Some(text) ==> is_trimmed(text@, inner) && is_lowered(inner, lowered),
    ensures
        agreed <==> line is Some && (lowered == "y"@ || lowered == "yes"@),
{
    if let Some(text) = line {
        crate::laws::text::trimmed_is_trimmed(text@);
        trimmed_is_one(text@, inner, crate::text::trimmed(text@));
        crate::laws::text::lowered_is_pointwise(inner);
        crate::laws::text::lowered_is_one(inner, lowered, crate::text::ascii_lowered(inner));
    }
}

/// The transport by which a configured server is reached.
pub open spec fn transport_in_use(def: ServerDef) -> Seq<char> {
    if def.url@.len() == 0 {
        "stdio"@
    } else if is_lowered(def.transport@, "sse"@) {
        "sse"@
    } else {
        "http"@
    }
}

/// What stands for the transport in contracts is the transport in use.
pub proof fn effective_transport_is_in_use(def: ServerDef)
    ensures
        def.effective_transport() == transport_in_use(def),
{
    crate::laws::text::lowered_is_pointwise(def.transport@);
    if is_lowered(def.transport@, "sse"@) {
        crate::laws::text::lowered_is_one(
            def.transport@,
            "sse"@,
            crate::text::ascii_lowered(def.transport@),
        );
    }
}

/// What a plain listing shows of a configured server.
pub open spec fn listed_plainly(directories: Directories) -> spec_fn((Seq<char>, ServerDef)) -> Seq<char> {
    |entry: (Seq<char>, ServerDef)|
        entry.0 + "\t"@ + "-"@ + "\t"@ + transport_in_use(entry.1) + "\t"@
            + directories.server_endpoint(entry.0) + "\n"@
}

/// What a table shows of a configured server.
pub open spec fn listed_in_table(directories: Directories) -> spec_fn(
    (Seq<char>, ServerDef),
) -> Seq<char> {
    |entry: (Seq<char>, ServerDef)|
        in_column(entry.0, 20) + " "@ + in_column(transport_in_use(entry.1), 10) + " "@
            + directories.server_endpoint(entry.0) + "\n"@
}

/// Whether a JSON object shows a configured server: its name, its transport and its
/// socket, and nothing else.
pub open spec fn lists_server(
    item: JsonView,
    name: Seq<char>,
    def: ServerDef,
    directories: Directories,
) -> bool {
    &&& item is Object
    &&& forall|other: Seq<char>| #[trigger]
        item->Object_0.dom().contains(other) <==> other == "name"@ || other == "transport"@ || other
            == "socket_path"@
    &&& item->Object_0["name"@] == JsonView::Str(name)
    &&& item->Object_0["transport"@] == JsonView::Str(transport_in_use(def))
    &&& item->Object_0["socket_path"@] == JsonView::Str(directories.server_endpoint(name))
}

proof fn plain_list_is_line_by_line(directories: Directories, entries: Seq<(Seq<char>, ServerDef)>)
    ensures
        cli::plain_list(directories, entries) == entries.map_values(
            listed_plainly(directories),
        ).flatten_alt(),
    decreases entries.len(),
{
    let lines = entries.map_values(listed_plainly(directories));
    if entries.len() > 0 {
        plain_list_is_line_by_line(directories, entries.drop_last());
        assert(lines.drop_last() =~= entries.drop_last().map_values(listed_plainly(directories)));
        effective_transport_is_in_use(entries.last().1);
        assert(lines.last() == listed_plainly(directories)(entries.last()));
    }
}

proof fn table_list_is_row_by_row(directories: Directories, entries: Seq<(Seq<char>, ServerDef)>)
    ensures
        cli::table_list(directories, entries) == entries.map_values(
            listed_in_table(directories),
        ).flatten_alt(),
    decreases entries.len(),
{
    let rows = entries.map_values(listed_in_table(directories));
    if entries.len() > 0 {
        table_list_is_row_by_row(directories, entries.drop_last());
        assert(rows.drop_last() =~= entries.drop_last().map_values(listed_in_table(directories)));
        let (name, def) = entries.last();
        effective_transport_is_in_use(def);
        crate::laws::text::padded_is_in_column(name, 20);
        crate::laws::text::padded_is_in_column(def.effective_transport(), 10);
        assert(rows.last() == listed_in_table(directories)(entries.last()));
    }
}

proof fn list_entry_lists_server(directories: Directories, name: Seq<char>, def: ServerDef)
    ensures
        lists_server(
            cli::list_entry(name, def.effective_transport(), directories.server_endpoint(name)),
            name,
            def,
            directories,
        ),
{
    reveal_strlit("name");
    reveal_strlit("transport");
    reveal_strlit("socket_path");
    assert("name"@.len() == 4 && "transport"@.len() == 9 && "socket_path"@.len() == 11);
    effective_transport_is_in_use(def);
    let item = cli::list_entry(
        name,
        def.effective_transport(),
        directories.server_endpoint(name),
    );
    assert(item->Object_0["name"@] == JsonView::Str(name));
    assert(item->Object_0["transport"@] == JsonView::Str(transport_in_use(def)));
    assert(item->Object_0["socket_path"@] == JsonView::Str(directories.server_endpoint(name)));
}

/// A listing shows every configured server once, in the order of names: its name, the
/// transport it is reached by, and the socket it is pooled on.
pub proof fn listings_show_each_server_as_it_is(
    pool_config: &PoolConfig,
    directories: &Directories,
    mode: OutputMode,
    text: String,
)
    requires
        call_ensures(cli::list_servers, (pool_config, directories, mode), text),
    ensures
        ({
            let entries = pool_config.server.entry_seq();
            &&& entries.len() == 0 && mode == OutputMode::Json ==> text@ == "[]\n"@
            &&& entries.len() == 0 && mode != OutputMode::Json ==> text@
                == "no servers configured\n"@
            &&& entries.len() > 0 && mode == OutputMode::Plain ==> text@ == entries.map_values(
                listed_plainly(*directories),
            ).flatten_alt()
            &&& entries.len() > 0 && mode == OutputMode::Table ==> text@ == in_column("NAME"@, 20)
                + " "@ + in_column("TRANSPORT"@, 10) + " SOCKET\n"@ + entries.map_values(
                listed_in_table(*directories),
            ).flatten_alt()
            &&& entries.len() > 0 && mode == OutputMode::Json ==> exists|items: Seq<JsonView>|
                text@ == #[trigger] json::json_pretty_text(JsonView::Array(items)) + "\n"@
                    && items.len() == entries.len() && forall|i: int|
                    0 <= i < items.len() ==> lists_server(
                        #[trigger] items[i],
                        entries[i].0,
                        entries[i].1,
                        *directories,
                    )
        }),
{
    let entries = pool_config.server.entry_seq();
    plain_list_is_line_by_line(*directories, entries);
    table_list_is_row_by_row(*directories, entries);
    crate::laws::text::padded_is_in_column("NAME"@, 20);
    crate::laws::text::padded_is_in_column("TRANSPORT"@, 10);
    let items = cli::json_list(*directories, entries);
    assert forall|i: int| 0 <= i < items.len() implies lists_server(
        #[trigger] items[i],
        entries[i].0,
        entries[i].1,
        *directories,
    ) by {
        list_entry_lists_server(*directories, entries[i].0, entries[i].1);
    }
    if entries.len() > 0 && mode == OutputMode::Json {
        assert(text@ == json::json_pretty_text(JsonView::Array(items)) + "\n"@);
    }
}

/// The value that is listed in JSON has one item for each configured server.
pub proof fn listed_values_show_each_server(
    pool_config: &PoolConfig,
    directories: &Directories,
    value: Json,
    i: int,
)
    requires
        call_ensures(cli::list_value, (pool_config, directories), value),
        0 <= i < pool_config.server.entry_seq().len(),
    ensures
        value@ matches JsonView::Array(items) && items.len() == pool_config.server.entry_seq().len()
            && lists_server(
            items[i],
            pool_config.server.entry_seq()[i].0,
            pool_config.server.entry_seq()[i].1,
            *directories,
        ),
{
    let (name, def) = pool_config.server.entry_seq()[i];
    list_entry_lists_server(*directories, name, def);
}

/// The text under `key` in a report; a question mark where there is none.
pub open spec fn reported(report: JsonView, key: Seq<char>) -> Seq<char> {
    if report is Object && report->Object_0.dom().contains(key) && report->Object_0[key] is Str {
        report->Object_0[key]->Str_0
    } else {
        "?"@
    }
}

/// A field is shown by its text, or by a question mark.
pub proof fn fields_are_shown_by_their_text(value: &Json, key: &str, string: &str)
    requires
        call_ensures(cli::str_field, (value, key), string),
    ensures
        string@ == reported(value@, key@),
{
}

/// The number of connections in a report; zero where there is none.
pub open spec fn reported_connections(report: JsonView) -> nat {
    if report is Object && report->Object_0.dom().contains("connection_count"@)
        && report->Object_0["connection_count"@] is Int && 0
        <= report->Object_0["connection_count"@]->Int_0 <= u64::MAX {
        report->Object_0["connection_count"@]->Int_0 as nat
    } else {
        0
    }
}

/// The reports in what the daemon sent.
pub open spec fn reports_in(data: Option<JsonView>) -> Seq<JsonView> {
    if data is Some && data->0 is Object && data->0->Object_0.dom().contains("servers"@)
        && data->0->Object_0["servers"@] is Array {
        data->0->Object_0["servers"@]->Array_0
    } else {
        Seq::empty()
    }
}

/// The color of a status, and the end of the color.
pub open spec fn status_colors(status: Seq<char>, color: bool) -> (Seq<char>, Seq<char>) {
    if !color {
        (Seq::empty(), Seq::empty())
    } else if status == "running"@ {
        ("\x1b[32m"@, "\x1b[0m"@)
    } else if status == "starting"@ {
        ("\x1b[33m"@, "\x1b[0m"@)
    } else if status == "stopped"@ {
        ("\x1b[31m"@, "\x1b[0m"@)
    } else {
        (Seq::empty(), Seq::empty())
    }
}

/// What is shown of one report: in plain lines, or in a table.
pub open spec fn shown_of(plain: bool, color: bool) -> spec_fn(JsonView) -> Seq<char> {
    |report: JsonView|
        {
            let name = reported(report, "name"@);
            let status = reported(report, "status"@);
            let transport = reported(report, "transport"@);
            let socket = reported(report, "socket_path"@);
            let (paint, end) = status_colors(status, color);
            if plain {
                name + "\t"@ + status + "\t"@ + transport + "\t"@ + socket + "\n"@
            } else {
                in_column(name, 20) + " "@ + paint + in_column(status, 10) + end + " "@ + in_column(
                    transport,
                    10,
                ) + " "@ + in_column(crate::text::decimal(reported_connections(report)), 6) + " "@
                    + socket + "\n"@
            }
        }
}

/// Whether a report is asked for: any is where no name is given; else the one of exactly
/// that name.
pub open spec fn asked_for(name: Option<Seq<char>>) -> spec_fn(JsonView) -> bool {
    |report: JsonView| name is None || reported(report, "name"@) == name->0
}

/// What stands in a table before the rows.
pub open spec fn status_head(plain: bool) -> Seq<char> {
    if plain {
        Seq::empty()
    } else {
        in_column("NAME"@, 20) + " "@ + in_column("STATUS"@, 10) + " "@ + in_column(
            "TRANSPORT"@,
            10,
        ) + " "@ + in_column("CONNS"@, 6) + " SOCKET\n"@
    }
}

proof fn row_shows_report(report: JsonView, color: bool)
    ensures
        cli::status_row(report, color) == shown_of(false, color)(report),
{
    reveal_strlit("");
    reveal_strlit("running");
    reveal_strlit("starting");
    reveal_strlit("stopped");
    assert("running"@.len() == 7 && "starting"@.len() == 8 && "stopped"@[1] == 't'
        && "running"@[1] == 'u');
    assert(""@ =~= Seq::<char>::empty());
    let name = reported(report, "name"@);
    let status = reported(report, "status"@);
    let transport = reported(report, "transport"@);
    crate::laws::text::padded_is_in_column(name, 20);
    crate::laws::text::padded_is_in_column(status, 10);
    crate::laws::text::padded_is_in_column(transport, 10);
    crate::laws::text::padded_is_in_column(
        crate::text::decimal(reported_connections(report)),
        6,
    );
}

proof fn rows_are_those_asked_for(
    reports: Seq<JsonView>,
    name: Option<Seq<char>>,
    plain: bool,
    color: bool,
)
    ensures
        cli::status_rows(reports, name, plain, color) == reports.filter(asked_for(name)).map_values(
            shown_of(plain, color),
        ).flatten_alt(),
    decreases reports.len(),
{
    reveal(Seq::filter);
    let asked = reports.filter(asked_for(name));
    let rows = asked.map_values(shown_of(plain, color));
    if reports.len() > 0 {
        rows_are_those_asked_for(reports.drop_last(), name, plain, color);
        let earlier = reports.drop_last().filter(asked_for(name));
        row_shows_report(reports.last(), color);
        if asked_for(name)(reports.last()) {
            assert(asked == earlier.push(reports.last()));
            assert(rows.drop_last() =~= earlier.map_values(shown_of(plain, color)));
            assert(rows.last() == shown_of(plain, color)(reports.last()));
        }
    }
}

/// What is printed of the status is what is known of the servers asked for: where no name
/// is given, of all of them; else of the one of exactly that name, and of no other. Where
/// there is none, that is said.
pub proof fn status_shows_the_servers_asked_for(
    data: Option<&Json>,
    filter: Option<&str>,
    plain: bool,
    color: bool,
    text: String,
    name: Option<Seq<char>>,
    received: Option<JsonView>,
)
    requires
        call_ensures(cli::print_status_table, (data, filter, plain, color), text),
        match filter {
            Some(given) => name == Some(given@),
            None => name is None,
        },
        match data {
            Some(value) => received == Some(value@),
            None => received is None,
        },
    ensures
        ({
            let asked = reports_in(received).filter(asked_for(name));
            if asked.len() > 0 {
                text@ == status_head(plain) + asked.map_values(shown_of(plain, color)).flatten_alt()
            } else {
                match name {
                    Some(target) => text@ == "server '"@ + target + "' is not running\n"@,
                    None => text@ == "no servers running\n"@,
                }
            }
        }),
{
    let reports = reports_in(received);
    let asked = reports.filter(asked_for(name));
    rows_are_those_asked_for(reports, name, plain, color);
    crate::laws::text::padded_is_in_column("NAME"@, 20);
    crate::laws::text::padded_is_in_column("STATUS"@, 10);
    crate::laws::text::padded_is_in_column("TRANSPORT"@, 10);
    crate::laws::text::padded_is_in_column("CONNS"@, 6);
    assert(cli::reported_servers(received) =~= reports);
    assert forall|i: int| 0 <= i < reports.len() implies (asked_for(name)(#[trigger] reports[i])
        <==> cli::is_shown(reports[i], name)) by {}
    if asked.len() > 0 {
        reports.lemma_filter_pred(asked_for(name), 0);
        filtered_come_from(reports, asked_for(name), 0);
        let i = choose|i: int| 0 <= i < reports.len() && reports[i] == asked[0];
        assert(cli::is_shown(reports[i], name));
    } else {
        assert forall|i: int| 0 <= i < reports.len() implies !cli::is_shown(
            #[trigger] reports[i],
            name,
        ) by {
            if asked_for(name)(reports[i]) {
                reports.lemma_filter_contains(asked_for(name), i);
            }
        }
    }
    let rows = asked.map_values(shown_of(plain, color)).flatten_alt();
    assert(Seq::<char>::empty() + rows =~= rows);
}

proof fn filtered_come_from(reports: Seq<JsonView>, pred: spec_fn(JsonView) -> bool, k: int)
    requires
        0 <= k < reports.filter(pred).len(),
    ensures
        exists|i: int| 0 <= i < reports.len() && reports[i] == reports.filter(pred)[k],
    decreases reports.len(),
{
    reveal(Seq::filter);
    let rest = reports.drop_last();
    if k < rest.filter(pred).len() {
        filtered_come_from(rest, pred, k);
        let i = choose|i: int| 0 <= i < rest.len() && rest[i] == rest.filter(pred)[k];
        assert(reports[i] == reports.filter(pred)[k]);
    } else {
        assert(reports[reports.len() - 1] == reports.filter(pred)[k]);
    }
}

/// What is printed for one server does not depend on any other: a report with another
/// name, wherever it stands, adds nothing.
pub proof fn status_of_one_server_ignores_all_others(
    data: &Json,
    more: &Json,
    filter: &str,
    plain: bool,
    color: bool,
    text: String,
    text_with_more: String,
    before: Seq<JsonView>,
    other: JsonView,
    after: Seq<JsonView>,
)
    requires
        call_ensures(cli::print_status_table, (Some(data), Some(filter), plain, color), text),
        call_ensures(
            cli::print_status_table,
            (Some(more), Some(filter), plain, color),
            text_with_more,
        ),
        reports_in(Some(data@)) == before + after,
        reports_in(Some(more@)) == before + seq![other] + after,
        reported(other, "name"@) != filter@,
    ensures
        text_with_more@ == text@,
{
    let name = Some(filter@);
    let pred = asked_for(name);
    status_shows_the_servers_asked_for(
        Some(data),
        Some(filter),
        plain,
        color,
        text,
        name,
        Some(data@),
    );
    status_shows_the_servers_asked_for(
        Some(more),
        Some(filter),
        plain,
        color,
        text_with_more,
        name,
        Some(more@),
    );
    Seq::filter_distributes_over_add(before, after, pred);
    Seq::filter_distributes_over_add(before + seq![other], after, pred);
    Seq::filter_distributes_over_add(before, seq![other], pred);
    assert(seq![other].filter(pred) =~= Seq::<JsonView>::empty()) by {
        reveal_with_fuel(Seq::filter, 2);
        assert(seq![other].drop_last() =~= Seq::<JsonView>::empty());
        assert(seq![other].last() == other);
        assert(!pred(other));
    }
    assert(before.filter(pred) + seq![other].filter(pred) =~= before.filter(pred));
}

/// What is printed after a request was carried out names what was done, and to which
/// server; in JSON, what the daemon sent is printed as it is.
pub proof fn responses_say_what_was_done(
    request: &ControlRequest,
    data: Option<Json>,
    mode: OutputMode,
    color: bool,
    text: String,
)
    requires
        call_ensures(cli::print_response_data, (request, data, mode, color), text),
    ensures
        mode == OutputMode::Json ==> match data {
            Some(value) => text@ == json::json_pretty_text(value@) + "\n"@,
            None => text@ == "{}\n"@,
        },
        mode != OutputMode::Json && !color ==> match request {
            ControlRequest::Start { name } => text@ == "started"@ + " "@ + name@ + "\n"@,
            ControlRequest::Stop { name } => text@ == "stopped"@ + " "@ + name@ + "\n"@,
            ControlRequest::Restart { name } => text@ == "restarted"@ + " "@ + name@ + "\n"@,
            ControlRequest::Shutdown => text@ == "daemon shutting down"@ + "\n"@,
            _ => true,
        },
        mode != OutputMode::Json && color ==> match request {
            ControlRequest::Start { name } => text@ == "\x1b[32m"@ + "started"@ + "\x1b[0m"@ + " "@
                + name@ + "\n"@,
            ControlRequest::Stop { name } => text@ == "\x1b[33m"@ + "stopped"@ + "\x1b[0m"@ + " "@
                + name@ + "\n"@,
            ControlRequest::Restart { name } => text@ == "\x1b[32m"@ + "restarted"@ + "\x1b[0m"@
                + " "@ + name@ + "\n"@,
            ControlRequest::Shutdown => text@ == "\x1b[33m"@ + "daemon shutting down"@ + "\x1b[0m"@
                + "\n"@,
            _ => true,
        },
{
    reveal_strlit("");
    assert(""@ =~= Seq::<char>::empty());
    if !color && mode != OutputMode::Json {
        match request {
            ControlRequest::Start { name } => {
                assert(text@ =~= "started"@ + " "@ + name@ + "\n"@);
            },
            ControlRequest::Stop { name } => {
                assert(text@ =~= "stopped"@ + " "@ + name@ + "\n"@);
            },
            ControlRequest::Restart { name } => {
                assert(text@ =~= "restarted"@ + " "@ + name@ + "\n"@);
            },
            ControlRequest::Shutdown => {
                assert(text@ =~= "daemon shutting down"@ + "\n"@);
            },
            _ => {},
        }
    }
}

/// A status request is answered with the status table of what the daemon sent, for the
/// server that was asked for.
pub proof fn status_responses_are_status_tables(
    name: Option<String>,
    data: Option<Json>,
    mode: OutputMode,
    color: bool,
    text: String,
    report: Option<&Json>,
    filter: Option<&str>,
    table: String,
)
    requires
        mode != OutputMode::Json,
        call_ensures(
            cli::print_response_data,
            (&ControlRequest::Status { name }, data, mode, color),
            text,
        ),
        match data {
            Some(value) => report == Some(&value),
            None => report is None,
        },
        match name {
            Some(target) => filter is Some && filter->0@ == target@,
            None => filter is None,
        },
        call_ensures(
            cli::print_status_table,
            (report, filter, mode == OutputMode::Plain, color),
            table,
        ),
    ensures
        text@ == table@,
{
}

/// A reply that reports success is printed; one that reports a failure becomes an error
/// with the daemon's own words.
pub proof fn replies_are_printed_or_reported(
    request: &ControlRequest,
    response: ControlResponse,
    mode: OutputMode,
    color: bool,
    printed: Result<String, String>,
    text: String,
)
    requires
        call_ensures(cli::control_round_trip, (request, response, mode, color), printed),
        call_ensures(cli::print_response_data, (request, response.data, mode, color), text),
    ensures
        printed is Ok <==> response.ok,
        printed matches Ok(shown) ==> shown@ == text@,
        printed matches Err(message) ==> message@ == "mcp-pool: "@ + (match response.error {
            Some(words) => words@,
            None => "unknown error"@,
        }) + "\n"@,
{
}

/// A server counts as started where the daemon says so; else its words are the error.
pub proof fn started_is_what_the_daemon_confirms(
    name: &str,
    request: ControlRequest,
    response: &ControlResponse,
    started: Result<(), String>,
)
    requires
        call_ensures(cli::start_request, (name,), request),
        call_ensures(cli::ensure_started, (response,), started),
    ensures
        request matches ControlRequest::Start { name: asked } && asked@ == name@,
        started is Ok <==> response.ok,
        started matches Err(message) ==> message@ == (match response.error {
            Some(words) => words@,
            None => "unknown error"@,
        }),
{
}

/// A reply is read without the blanks around it. A connection that was closed without a
/// reply is tried once more, and only once.
pub proof fn silence_is_tried_once_more(
    earlier_attempts: u32,
    reply: Option<&str>,
    step: ReplyStep,
)
    requires
        call_ensures(cli::send_control, (earlier_attempts, reply), step),
    ensures
        reply matches Some(line) ==> (step matches ReplyStep::Read(text) && is_trimmed(
            line@,
            text@,
        )),
        reply is None && earlier_attempts == 0 ==> (step matches ReplyStep::Retry(line) && line@
            == "control response empty; retrying once"@),
        reply is None && earlier_attempts > 0 ==> (step matches ReplyStep::Fail(message) && message@
            == "daemon closed control socket without responding"@),
{
    if let Some(line) = reply {
        crate::laws::text::trimmed_is_trimmed(line@);
    }
}

/// A request is one line, and a reply is what was read, if anything was.
pub proof fn requests_and_replies_are_lines(
    serialized: &str,
    request: String,
    bytes: usize,
    line: String,
    reply: Option<String>,
)
    requires
        call_ensures(cli::request_line, (serialized,), request),
        call_ensures(cli::send_request, (bytes, line), reply),
    ensures
        request@.len() == serialized@.len() + 1,
        request@.last() == '\n',
        request@.drop_last() == serialized@,
        reply is None <==> bytes == 0,
        reply matches Some(read) ==> read == line,
{
    reveal_strlit("\n");
    assert(request@.drop_last() =~= serialized@);
}

/// A daemon that answers is used; one that does not is launched once, and then connected
/// to. What fails after that is an error.
pub proof fn daemons_are_launched_only_when_silent(step: DaemonStep, failed: bool, next: DaemonNext)
    requires
        call_ensures(cli::ensure_daemon, (step, failed), next),
    ensures
        !failed && step != DaemonStep::Launch ==> next == DaemonNext::Connected,
        next == DaemonNext::Run(DaemonStep::Launch) <==> failed && step == DaemonStep::Connect,
        next == DaemonNext::Run(DaemonStep::ConnectToLaunched) <==> !failed && step
            == DaemonStep::Launch,
        next == DaemonNext::Fail <==> failed && step != DaemonStep::Connect,
{
}

/// A launched daemon is tried thirty times, with a pause of a tenth of a second before
/// each.
pub proof fn launched_daemons_are_tried_thirty_times(failures: u32, attempt: Attempt)
    requires
        call_ensures(cli::retry_connect, (failures,), attempt),
    ensures
        failures < 30 ==> attempt == Attempt::After(100),
        failures >= 30 ==> attempt == Attempt::GiveUp,
{
}

/// What is said names what it is about.
pub proof fn words_name_their_subject(
    path: &str,
    toml: &str,
    planned: String,
    name: &str,
    added: String,
    error: &str,
    unreadable: String,
    executable: &str,
    launched: String,
    reason: Option<&str>,
    unreachable: String,
)
    requires
        call_ensures(cli::dry_run_text, (path, toml), planned),
        call_ensures(cli::added_text, (name, path), added),
        call_ensures(cli::unreadable_reply_message, (error,), unreadable),
        call_ensures(cli::launched_line, (executable,), launched),
        call_ensures(cli::unreachable_daemon_message, (reason,), unreachable),
    ensures
        planned@ == "# target: "@ + path@ + "\n"@ + toml@,
        added@ == "added server '"@ + name@ + "' -> "@ + path@ + "\n"@,
        unreadable@ == "parse control response: "@ + error@,
        launched@ == "spawned daemon: "@ + executable@ + " serve"@,
        reason matches Some(words) ==> unreachable@ == "could not reach daemon after launch ("@
            + words@ + "). Try `mcp-pool serve` manually."@,
        reason is None ==> unreachable@ == "could not reach daemon after launch ("@
            + "control socket unreachable"@ + "). Try `mcp-pool serve` manually."@,
{
}

/// Colors are escape sequences where they are wanted, and nothing where they are not.
pub proof fn colors_are_escape_sequences(
    color: bool,
    codes: (&'static str, &'static str, &'static str, &'static str),
)
    requires
        call_ensures(cli::colors, (color,), codes),
    ensures
        color ==> codes.0@ == "\x1b[32m"@ && codes.1@ == "\x1b[33m"@ && codes.2@ == "\x1b[31m"@
            && codes.3@ == "\x1b[0m"@,
        !color ==> codes.0@.len() == 0 && codes.1@.len() == 0 && codes.2@.len() == 0
            && codes.3@.len() == 0,
{
    reveal_strlit("");
}

} // verus!
