//! Where things are kept, and what is configured.

use vstd::prelude::*;

use crate::config::{self, Directories, DirectoryError, Platform, PoolConfig, SaveStep, ServerDef};
use crate::laws::cli::{hold_the_same, transport_in_use};

verus! {

/// Whether a path starts as a verbatim Windows path does.
pub open spec fn starts_verbatim(path: Seq<char>) -> bool {
    path.len() >= 4 && path[0] == '\\' && path[1] == '\\' && path[2] == '?' && path[3] == '\\'
}

proof fn verbatim_is_by_characters(path: Seq<char>)
    ensures
        starts_verbatim(path) <==> config::is_verbatim(Platform::Windows, path),
{
    reveal_strlit("\\\\?\\");
    let start = "\\\\?\\"@;
    if config::is_verbatim(Platform::Windows, path) {
        assert(path.subrange(0, 4)[0] == path[0]);
        assert(path.subrange(0, 4)[1] == path[1]);
        assert(path.subrange(0, 4)[2] == path[2]);
        assert(path.subrange(0, 4)[3] == path[3]);
    }
    if starts_verbatim(path) {
        assert(start =~= path.subrange(0, start.len() as int));
    }
}

/// A file lies in a directory under its own name, with one separator between the two:
/// the directory's last character, where that separates already, or else one more.
pub proof fn files_lie_in_their_directory(
    platform: Platform,
    base: &str,
    leaf: &str,
    path: String,
)
    requires
        call_ensures(config::join, (platform, base, leaf), path),
    ensures
        base@.len() == 0 ==> path@ == leaf@,
        platform == Platform::Unix && base@.len() > 0 ==> path@ == (if base@.last() == '/' {
            base@ + leaf@
        } else {
            base@.push('/') + leaf@
        }),
        platform == Platform::Windows && base@.len() > 0 && !starts_verbatim(base@) ==> path@ == (
        if base@.last() == '/' || base@.last() == '\\' {
            base@ + leaf@
        } else if base@.len() == 2 && base@[1] == ':' && (('a' <= base@[0] && base@[0] <= 'z') || (
        'A' <= base@[0] && base@[0] <= 'Z')) {
            base@ + leaf@
        } else {
            base@.push('\\') + leaf@
        }),
{
    reveal_strlit("/");
    reveal_strlit("\\");
    verbatim_is_by_characters(base@);
    assert(base@ + "/"@ =~= base@.push('/'));
    assert(base@ + "\\"@ =~= base@.push('\\'));
    assert(base@.len() == 0 ==> base@ + leaf@ =~= leaf@);
}

/// What is in a path apart from separators.
pub open spec fn apart_from_backslashes(path: Seq<char>) -> Seq<char> {
    path.filter(|ch: char| ch != '\\')
}

proof fn tidying_takes_backslashes_only(path: Seq<char>, from: int, to: int)
    requires
        0 <= from <= to <= path.len(),
    ensures
        apart_from_backslashes(config::tidied(path, from, to)) == apart_from_backslashes(
            path.subrange(from, to),
        ),
    decreases to - from,
{
    reveal(Seq::filter);
    if from < to {
        tidying_takes_backslashes_only(path, from, to - 1);
        let part = path.subrange(from, to);
        assert(part.drop_last() =~= path.subrange(from, to - 1));
        assert(part.last() == path[to - 1]);
        let tidy = config::tidied(path, from, to);
        if !config::is_idle_separator(path, to - 1) {
            assert(tidy.drop_last() =~= config::tidied(path, from, to - 1));
        }
    } else {
        assert(config::tidied(path, from, to) =~= path.subrange(from, to));
    }
}

proof fn volume_ends_within(path: Seq<char>)
    requires
        starts_verbatim(path),
    ensures
        4 <= config::volume_end(path) <= path.len(),
{
    reveal_strlit("\\\\?\\UNC\\");
    part_ends_within(path, 4);
    if "\\\\?\\UNC\\"@.is_prefix_of(path) {
        part_ends_within(path, 8);
        let server_end = config::part_end(path, 8);
        if server_end < path.len() {
            part_ends_within(path, server_end + 1);
        }
    }
}

proof fn part_ends_within(path: Seq<char>, from: int)
    requires
        0 <= from <= path.len(),
    ensures
        from <= config::part_end(path, from) <= path.len(),
    decreases path.len() - from,
{
    if from < path.len() && path[from] != '\\' {
        part_ends_within(path, from + 1);
    }
}

/// In a verbatim directory a file stands behind a backslash, and nothing but backslashes
/// of the directory can be left out.
pub proof fn verbatim_directories_keep_their_parts(base: &str, leaf: &str, path: String)
    requires
        call_ensures(config::join, (Platform::Windows, base, leaf), path),
        starts_verbatim(base@),
    ensures
        exists|directory: Seq<char>|
            path@ == #[trigger] directory.push('\\') + leaf@ && starts_verbatim(directory)
                && apart_from_backslashes(directory) == apart_from_backslashes(base@),
{
    reveal_strlit("\\");
    verbatim_is_by_characters(base@);
    volume_ends_within(base@);
    let volume = config::volume_end(base@);
    let start = base@.take(volume);
    let rest = config::tidied(base@, volume, base@.len() as int);
    let directory = start + rest;
    assert(path@ =~= directory.push('\\') + leaf@);
    tidying_takes_backslashes_only(base@, volume, base@.len() as int);
    let tail = base@.subrange(volume, base@.len() as int);
    assert(base@ =~= start + tail);
    let kept = |ch: char| ch != '\\';
    Seq::filter_distributes_over_add(start, rest, kept);
    Seq::filter_distributes_over_add(start, tail, kept);
}

/// A verbatim directory in which a part follows each backslash is kept as it is.
pub proof fn tidy_verbatim_directories_are_kept(base: &str, leaf: &str, path: String)
    requires
        call_ensures(config::join, (Platform::Windows, base, leaf), path),
        starts_verbatim(base@),
        forall|i: int|
            4 <= i < base@.len() && #[trigger] base@[i] == '\\' ==> i + 1 < base@.len() && base@[i + 1]
                != '\\',
    ensures
        path@ == base@.push('\\') + leaf@,
{
    reveal_strlit("\\");
    verbatim_is_by_characters(base@);
    volume_ends_within(base@);
    let volume = config::volume_end(base@);
    tidy_stays(base@, volume, base@.len() as int);
    assert(base@ =~= base@.take(volume) + base@.subrange(volume, base@.len() as int));
    assert(path@ =~= base@.push('\\') + leaf@);
}

proof fn tidy_stays(path: Seq<char>, from: int, to: int)
    requires
        4 <= from <= to <= path.len(),
        forall|i: int|
            4 <= i < path.len() && #[trigger] path[i] == '\\' ==> i + 1 < path.len() && path[i + 1]
                != '\\',
    ensures
        config::tidied(path, from, to) == path.subrange(from, to),
    decreases to - from,
{
    if from < to {
        tidy_stays(path, from, to - 1);
        assert(path.subrange(from, to) =~= path.subrange(from, to - 1).push(path[to - 1]));
        if path[to - 1] == '\\' {
            assert(!config::is_idle_separator(path, to - 1));
        }
    } else {
        assert(config::tidied(path, from, to) =~= path.subrange(from, to));
    }
}

/// `MCP_POOL_HOME` replaces every directory of the user; without it each is the user's
/// own, and state falls back to local data.
pub proof fn directories_are_the_users_or_replaced(
    directories: &Directories,
    home: Result<String, DirectoryError>,
    config: Result<String, DirectoryError>,
    state: Result<String, DirectoryError>,
)
    requires
        call_ensures(config::home_dir, (directories,), home),
        call_ensures(config::config_dir, (directories,), config),
        call_ensures(config::state_dir, (directories,), state),
    ensures
        ({
            let platform = directories.platform;
            match directories.custom_home {
                Some(custom) => {
                    &&& home matches Ok(path) && path@ == custom@
                    &&& config matches Ok(path) && path@ == config::joined(
                        platform,
                        custom@,
                        "config"@,
                    )
                    &&& state matches Ok(path) && path@ == config::joined(
                        platform,
                        custom@,
                        "state"@,
                    )
                },
                None => {
                    &&& match directories.home {
                        Some(own) => home matches Ok(path) && path@ == own@,
                        None => home == Err::<String, DirectoryError>(DirectoryError::Home),
                    }
                    &&& match directories.config {
                        Some(own) => config matches Ok(path) && path@ == config::joined(
                            platform,
                            own@,
                            "mcp-pool"@,
                        ),
                        None => config == Err::<String, DirectoryError>(DirectoryError::Config),
                    }
                    &&& match (directories.state, directories.data_local) {
                        (Some(own), _) => state matches Ok(path) && path@ == config::joined(
                            platform,
                            own@,
                            "mcp-pool"@,
                        ),
                        (None, Some(own)) => state matches Ok(path) && path@ == config::joined(
                            platform,
                            own@,
                            "mcp-pool"@,
                        ),
                        (None, None) => state == Err::<String, DirectoryError>(
                            DirectoryError::State,
                        ),
                    }
                },
            }
        }),
{
}

/// The configuration file lies in the configuration directory, and the run directory in
/// the state directory.
pub proof fn files_follow_their_directories(
    directories: &Directories,
    config: Result<String, DirectoryError>,
    file: Result<String, DirectoryError>,
    state: Result<String, DirectoryError>,
    run: Result<String, DirectoryError>,
)
    requires
        call_ensures(config::config_dir, (directories,), config),
        call_ensures(config::config_path, (directories,), file),
        call_ensures(config::state_dir, (directories,), state),
        call_ensures(config::run_dir, (directories,), run),
    ensures
        match config {
            Ok(directory) => file matches Ok(path) && path@ == config::joined(
                directories.platform,
                directory@,
                "config.toml"@,
            ),
            Err(error) => file == Err::<String, DirectoryError>(error),
        },
        match state {
            Ok(directory) => run matches Ok(path) && path@ == config::joined(
                directories.platform,
                directory@,
                "run"@,
            ),
            Err(error) => run == Err::<String, DirectoryError>(error),
        },
{
}

/// The endpoints are files in the state and run directories, or in `/tmp` where there are
/// none; on Windows they are pipes.
pub proof fn endpoints_lie_where_they_belong(
    directories: &Directories,
    name: &str,
    safe: String,
    state: Result<String, DirectoryError>,
    run: Result<String, DirectoryError>,
    control: String,
    server: String,
)
    requires
        call_ensures(config::sanitize_socket_name, (name,), safe),
        call_ensures(config::state_dir, (directories,), state),
        call_ensures(config::run_dir, (directories,), run),
        call_ensures(config::control_socket_path, (directories,), control),
        call_ensures(config::server_socket_path, (directories, name), server),
    ensures
        directories.platform == Platform::Windows ==> control@ == "\\\\.\\pipe\\mcp-pool-control"@
            && server@ == "\\\\.\\pipe\\mcp-pool-"@ + safe@,
        directories.platform == Platform::Unix ==> match state {
            Ok(directory) => control@ == config::joined(
                Platform::Unix,
                directory@,
                "control.sock"@,
            ),
            Err(_) => control@ == "/tmp/mcp-pool-control.sock"@,
        },
        directories.platform == Platform::Unix ==> match run {
            Ok(directory) => server@ == config::joined(
                Platform::Unix,
                directory@,
                "mcp-pool-"@ + safe@ + ".sock"@,
            ),
            Err(_) => server@ == "/tmp/"@ + ("mcp-pool-"@ + safe@ + ".sock"@),
        },
{
}

/// Whether a character is an ASCII letter or digit, a hyphen or an underscore.
pub open spec fn is_plain(ch: char) -> bool {
    ||| 'a' <= ch <= 'z'
    ||| 'A' <= ch <= 'Z'
    ||| '0' <= ch <= '9'
    ||| ch == '-'
    ||| ch == '_'
}

/// A name keeps its plain characters where they stand; each other one becomes an
/// underscore. A name without characters becomes `mcp`.
pub proof fn names_are_made_plain(name: &str, safe: String)
    requires
        call_ensures(config::sanitize_socket_name, (name,), safe),
    ensures
        name@.len() == 0 ==> safe@ == "mcp"@,
        name@.len() > 0 ==> safe@.len() == name@.len() && forall|i: int|
            0 <= i < name@.len() ==> #[trigger] safe@[i] == (if is_plain(name@[i]) {
                name@[i]
            } else {
                '_'
            }),
{
}

proof fn concatenation_tells_the_middle(
    before: Seq<char>,
    a: Seq<char>,
    b: Seq<char>,
    after: Seq<char>,
)
    requires
        before + a + after == before + b + after,
    ensures
        a == b,
{
    let whole = before + a + after;
    assert(whole.len() == before.len() + a.len() + after.len());
    assert((before + b + after).len() == before.len() + b.len() + after.len());
    assert(a =~= whole.subrange(before.len() as int, (before.len() + a.len()) as int));
    assert(b =~= (before + b + after).subrange(before.len() as int, (before.len() + b.len()) as int));
}

/// Servers with different plain names have different endpoints.
pub proof fn servers_do_not_share_endpoints(
    directories: &Directories,
    a: &str,
    b: &str,
    of_a: String,
    of_b: String,
)
    requires
        call_ensures(config::server_socket_path, (directories, a), of_a),
        call_ensures(config::server_socket_path, (directories, b), of_b),
        a@.len() > 0,
        b@.len() > 0,
        forall|i: int| 0 <= i < a@.len() ==> is_plain(#[trigger] a@[i]),
        forall|i: int| 0 <= i < b@.len() ==> is_plain(#[trigger] b@[i]),
        a@ != b@,
    ensures
        of_a@ != of_b@,
{
    config::safe_names_are_kept(a@);
    config::safe_names_are_kept(b@);
    if of_a@ == of_b@ {
        let none = Seq::<char>::empty();
        let file = "mcp-pool-"@;
        let end = ".sock"@;
        match directories.platform {
            Platform::Windows => {
                let pipe = "\\\\.\\pipe\\mcp-pool-"@;
                assert(pipe + a@ =~= pipe + a@ + none);
                assert(pipe + b@ =~= pipe + b@ + none);
                concatenation_tells_the_middle(pipe, a@, b@, none);
            },
            Platform::Unix => {
                match directories.run_dir_path() {
                    Ok(run) => {
                        let start = if run.len() == 0 || run.last() == '/' {
                            run + file
                        } else {
                            run + "/"@ + file
                        };
                        assert(of_a@ =~= start + a@ + end);
                        assert(of_b@ =~= start + b@ + end);
                        concatenation_tells_the_middle(start, a@, b@, end);
                    },
                    Err(_) => {
                        let start = "/tmp/"@ + file;
                        assert(of_a@ =~= start + a@ + end);
                        assert(of_b@ =~= start + b@ + end);
                        concatenation_tells_the_middle(start, a@, b@, end);
                    },
                }
            },
        }
    }
}

/// A server is remote where it has a URL. Its transport is `stdio` where it is not
/// remote, `sse` where that is named in whatever case, and else `http`.
pub proof fn transports_are_as_configured(
    def: &ServerDef,
    remote: bool,
    sse: bool,
    kind: &'static str,
)
    requires
        call_ensures(ServerDef::is_remote, (def,), remote),
        call_ensures(ServerDef::is_sse, (def,), sse),
        call_ensures(ServerDef::transport_kind, (def,), kind),
    ensures
        remote <==> def.url@.len() > 0,
        sse <==> crate::laws::text::is_lowered(def.transport@, "sse"@),
        kind@ == transport_in_use(*def),
{
    crate::laws::cli::effective_transport_is_in_use(*def);
    crate::laws::text::lowered_is_pointwise(def.transport@);
    if crate::laws::text::is_lowered(def.transport@, "sse"@) {
        crate::laws::text::lowered_is_one(
            def.transport@,
            "sse"@,
            crate::text::ascii_lowered(def.transport@),
        );
    }
}

/// A server that is put in is there as it was given; others are as before.
pub proof fn upserting_changes_one_server(
    pool_config: &mut PoolConfig,
    name: &str,
    def: ServerDef,
)
    requires
        call_ensures(PoolConfig::upsert, (pool_config, name, def), ()),
    ensures
        final(pool_config).server@.dom() == old(pool_config).server@.dom().insert(name@),
        final(pool_config).server@[name@] == def,
        forall|other: Seq<char>| #[trigger]
            old(pool_config).server@.dom().contains(other) && other != name@ ==> final(pool_config).server@[other] == old(pool_config).server@[other],
{
    assert(final(pool_config).server@.dom() =~= old(pool_config).server@.dom().insert(name@));
}

/// A server that is taken out is gone; others are as before. What was not there cannot be
/// taken out.
pub proof fn removing_changes_one_server(
    pool_config: &mut PoolConfig,
    name: &str,
    removed: bool,
)
    requires
        call_ensures(PoolConfig::remove, (pool_config, name), removed),
    ensures
        removed <==> old(pool_config).server@.dom().contains(name@),
        final(pool_config).server@.dom() == old(pool_config).server@.dom().remove(name@),
        forall|other: Seq<char>| #[trigger]
            old(pool_config).server@.dom().contains(other) && other != name@ ==> final(pool_config).server@[other] == old(pool_config).server@[other],
{
    assert(final(pool_config).server@.dom() =~= old(pool_config).server@.dom().remove(name@));
}

/// Copies of definitions and configurations hold the same.
pub proof fn copies_hold_the_same(
    def: &ServerDef,
    def_copy: ServerDef,
    pool_config: &PoolConfig,
    config_copy: PoolConfig,
    name: Seq<char>,
)
    requires
        call_ensures(<ServerDef as Clone>::clone, (def,), def_copy),
        call_ensures(<PoolConfig as Clone>::clone, (pool_config,), config_copy),
    ensures
        hold_the_same(def_copy, *def),
        config_copy.server@.dom() == pool_config.server@.dom(),
        pool_config.server@.dom().contains(name) ==> hold_the_same(
            config_copy.server@[name],
            pool_config.server@[name],
        ),
{
}

/// A definition by default holds nothing, and neither does a configuration.
pub proof fn defaults_are_empty(def: ServerDef, pool_config: PoolConfig)
    requires
        call_ensures(<ServerDef as Default>::default, (), def),
        call_ensures(<PoolConfig as Default>::default, (), pool_config),
    ensures
        def.command@.len() == 0,
        def.args@.len() == 0,
        def.env@.dom() == Set::<Seq<char>>::empty(),
        def.url@.len() == 0,
        def.transport@.len() == 0,
        def.description@.len() == 0,
        pool_config.server@.dom() == Set::<Seq<char>>::empty(),
{
    assert(def.env@.dom() =~= Set::<Seq<char>>::empty());
    assert(pool_config.server@.dom() =~= Set::<Seq<char>>::empty());
}

/// The configuration is written to a file beside the configuration file, which changes
/// only in the last step, by being replaced as a whole.
pub proof fn configuration_files_are_replaced_whole(
    directories: &Directories,
    found: String,
    directory: &str,
    file: String,
    steps: Vec<SaveStep>,
)
    requires
        call_ensures(config::config_dir, (directories,), Ok(found)),
        directory@ == found@,
        call_ensures(config::config_path, (directories,), Ok(file)),
        call_ensures(config::save_steps, (directories.platform, directory), steps),
    ensures
        steps@.len() == 3,
        steps@[0] matches SaveStep::CreateDirectory(created) && created@ == directory@,
        steps@[1] matches SaveStep::Write(written) && written@ != file@ && (
        steps@[2] matches SaveStep::Rename { from, to } && from@ == written@ && to@ == file@),
{
    reveal_strlit("config.toml");
    reveal_strlit("config.toml.tmp");
    let written = config::joined(directories.platform, directory@, "config.toml.tmp"@);
    let target = config::joined(directories.platform, directory@, "config.toml"@);
    assert(written.len() == target.len() + 4);
}

/// Messages name the file and the error.
pub proof fn messages_name_file_and_error(
    path: &str,
    error: &str,
    unreadable: String,
    missing: &DirectoryError,
    message: &'static str,
)
    requires
        call_ensures(config::unreadable_config_message, (path, error), unreadable),
        call_ensures(DirectoryError::message, (missing,), message),
    ensures
        unreadable@ == path@ + ": "@ + error@,
        match missing {
            DirectoryError::Home => message@ == "home directory not found"@,
            DirectoryError::Config => message@ == "config directory not found"@,
            DirectoryError::State => message@ == "state directory not found"@,
        },
{
}

} // verus!
