//! What is logged, and where.

use vstd::prelude::*;
use vstd::utf8;

use crate::config::{self, Directories, DirectoryError};
use crate::diagnostics::{self, Diagnostics, LogPlan};

verus! {

/// Diagnostics are off at first, and then as they were last switched; the two switches do
/// not touch each other.
pub proof fn switches_keep_what_was_set(
    fresh: Diagnostics,
    switched: &mut Diagnostics,
    enabled: bool,
    is_on: bool,
    mirrored: &mut Diagnostics,
    mirror: bool,
)
    requires
        call_ensures(Diagnostics::new, (), fresh),
        call_ensures(diagnostics::set_enabled, (switched, enabled), ()),
        call_ensures(diagnostics::is_enabled, (&*final(switched),), is_on),
        call_ensures(diagnostics::set_stderr_mirror, (mirrored, mirror), ()),
    ensures
        !fresh.enabled && !fresh.stderr_mirror,
        is_on == enabled,
        final(switched).stderr_mirror == old(switched).stderr_mirror,
        final(mirrored).stderr_mirror == mirror,
        final(mirrored).enabled == old(mirrored).enabled,
{
}

/// A value of the variable decides alone, whatever was set before; without a value
/// nothing changes.
pub proof fn the_variable_decides_where_it_is_set(
    diagnostics: &mut Diagnostics,
    value: Option<&str>,
)
    requires
        call_ensures(diagnostics::init_from_env, (diagnostics, value), ()),
    ensures
        value matches Some(text) ==> (final(diagnostics).enabled <==> (text@ == "1"@ || text@
            == "true"@ || text@ == "TRUE"@ || text@ == "yes"@)),
        value is None ==> final(diagnostics).enabled == old(diagnostics).enabled,
        final(diagnostics).stderr_mirror == old(diagnostics).stderr_mirror,
{
}

/// The number of bytes of a text.
pub open spec fn bytes_of(text: Seq<char>) -> nat {
    utf8::encode_utf8(text).len()
}

/// A line of at most 2000 bytes is logged as it is. Of a longer one, as many whole
/// characters are kept as fit into 2000 bytes, and the length of the whole is given.
pub proof fn long_lines_are_cut_between_characters(line: &str, logged: String)
    requires
        call_ensures(diagnostics::summarize_log_line, (line,), logged),
    ensures
        bytes_of(line@) <= 2000 ==> logged@ == line@,
        bytes_of(line@) > 2000 ==> exists|kept: int, digits: Seq<char>|
            logged@ == #[trigger] (line@.take(kept) + " truncated=true original_len="@ + digits) && 0
                <= kept <= line@.len() && bytes_of(line@.take(kept)) <= 2000 && (kept < line@.len()
                ==> bytes_of(line@.take(kept + 1)) > 2000) && crate::laws::text::writes_number(
                digits,
                bytes_of(line@) as int,
            ),
{
    if bytes_of(line@) > 2000 {
        let kept = diagnostics::fitting(line@, 2000);
        let digits = crate::text::decimal(bytes_of(line@));
        diagnostics::longest_fitting_start_is_kept(line@, 2000);
        crate::laws::text::decimal_writes_the_number(bytes_of(line@));
        assert(logged@ == line@.take(kept as int) + " truncated=true original_len="@ + digits);
    }
}

/// Logs lie in the state directory.
pub proof fn logs_lie_in_the_state_directory(
    directories: &Directories,
    state: Result<String, DirectoryError>,
    logs: Option<String>,
)
    requires
        call_ensures(config::state_dir, (directories,), state),
        call_ensures(diagnostics::log_dir, (directories,), logs),
    ensures
        match state {
            Ok(directory) => logs matches Some(path) && path@ == config::joined(
                directories.platform,
                directory@,
                "logs"@,
            ),
            Err(_) => logs is None,
        },
{
}

/// Nothing is logged while diagnostics are off. While they are on, the whole message goes
/// to the log file, where there is a directory for it, and to stderr where that is
/// wanted, each time as one line.
pub proof fn messages_are_logged_whole(
    diagnostics: &Diagnostics,
    directories: &Directories,
    message: &str,
    plan: LogPlan,
    logs: Option<String>,
)
    requires
        call_ensures(diagnostics::log, (diagnostics, directories, message), plan),
        call_ensures(diagnostics::log_dir, (directories,), logs),
    ensures
        !diagnostics.enabled ==> plan.stderr is None && plan.file is None,
        plan.stderr is Some <==> diagnostics.enabled && diagnostics.stderr_mirror,
        plan.stderr matches Some(text) ==> text@ == message@.push('\n'),
        plan.file is Some <==> diagnostics.enabled && logs is Some,
        plan.file matches Some(entry) ==> logs is Some && entry.directory@ == logs->0@
            && entry.path@ == config::joined(
            directories.platform,
            entry.directory@,
            "mcp-pool.log"@,
        ) && entry.line@ == message@.push('\n'),
{
    reveal_strlit("\n");
    assert(message@ + "\n"@ =~= message@.push('\n'));
}

} // verus!
