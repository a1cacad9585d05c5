//! Configured servers, and where configuration, state and sockets are kept.

use vstd::prelude::*;

use crate::names::NameMap;
use crate::text::{self, same_ignoring_ascii_case, starts_with};

verus! {

/// The kind of local endpoint that the operating system offers.
#[derive(Debug, Clone, Copy, PartialEq, Eq, Structural)]
pub enum Platform {
    /// Unix domain sockets, named by files.
    Unix,
    /// Windows named pipes.
    Windows,
}

/// What the environment says about directories. A directory that it does not
/// name is `None`.
#[derive(Debug)]
pub struct Directories {
    pub platform: Platform,
    /// The value of `MCP_POOL_HOME`, which replaces every other directory.
    pub custom_home: Option<String>,
    pub home: Option<String>,
    pub config: Option<String>,
    pub state: Option<String>,
    pub data_local: Option<String>,
}

/// A directory that the environment does not name.
#[derive(Debug, Clone, Copy, PartialEq, Eq, Structural)]
pub enum DirectoryError {
    Home,
    Config,
    State,
}

impl DirectoryError {
    /// What the error says.
    pub open spec fn wording(self) -> Seq<char> {
        match self {
            DirectoryError::Home => "home directory not found"@,
            DirectoryError::Config => "config directory not found"@,
            DirectoryError::State => "state directory not found"@,
        }
    }

    /// What the error says.
    pub fn message(&self) -> (message: &'static str)
        ensures
            message@ == self.wording(),
    {
        match self {
            DirectoryError::Home => "home directory not found",
            DirectoryError::Config => "config directory not found",
            DirectoryError::State => "state directory not found",
        }
    }
}

/// Whether a character separates the parts of a path.
pub open spec fn is_separator(platform: Platform, ch: char) -> bool {
    ch == '/' || (platform == Platform::Windows && ch == '\\')
}

/// Whether a path is the bare name of a Windows drive, such as `C:`.
pub open spec fn is_drive(platform: Platform, path: Seq<char>) -> bool {
    &&& platform == Platform::Windows
    &&& path.len() == 2
    &&& ('a' <= path[0] && path[0] <= 'z') || ('A' <= path[0] && path[0] <= 'Z')
    &&& path[1] == ':'
}

/// Whether a path starts with `\\?\`. Windows takes such a path as it stands: only a
/// backslash separates its parts.
pub open spec fn is_verbatim(platform: Platform, path: Seq<char>) -> bool {
    platform == Platform::Windows && "\\\\?\\"@.is_prefix_of(path)
}

/// The place of the first backslash from `from` on, or the end of the path.
pub open spec fn part_end(path: Seq<char>, from: int) -> int
    decreases path.len() - from,
{
    if from >= path.len() || path[from] == '\\' {
        from
    } else {
        part_end(path, from + 1)
    }
}

/// Where the volume ends in a path that starts with `\\?\`: behind the part that
/// follows, or behind server and share where that part is `UNC`.
pub open spec fn volume_end(path: Seq<char>) -> int {
    if "\\\\?\\UNC\\"@.is_prefix_of(path) {
        let server_end = part_end(path, 8);
        if server_end < path.len() && part_end(path, server_end + 1) > server_end + 1 {
            part_end(path, server_end + 1)
        } else {
            server_end
        }
    } else {
        part_end(path, 4)
    }
}

/// Whether the character at `index` is a backslash that no part follows directly.
pub open spec fn is_idle_separator(path: Seq<char>, index: int) -> bool {
    path[index] == '\\' && (index + 1 == path.len() || path[index + 1] == '\\')
}

/// What stands in a path from `from` up to `to`, without idle separators.
pub open spec fn tidied(path: Seq<char>, from: int, to: int) -> Seq<char>
    decreases to - from,
{
    if to <= from {
        Seq::empty()
    } else if is_idle_separator(path, to - 1) {
        tidied(path, from, to - 1)
    } else {
        tidied(path, from, to - 1).push(path[to - 1])
    }
}

/// The path of `leaf`, a file name, in the directory `base`.
pub open spec fn joined(platform: Platform, base: Seq<char>, leaf: Seq<char>) -> Seq<char> {
    if is_verbatim(platform, base) {
        let volume = volume_end(base);
        base.take(volume) + tidied(base, volume, base.len() as int) + "\\"@ + leaf
    } else if base.len() == 0 || is_separator(platform, base.last()) || is_drive(platform, base) {
        base + leaf
    } else if platform == Platform::Windows {
        base + "\\"@ + leaf
    } else {
        base + "/"@ + leaf
    }
}

/// The place of the first backslash from `from` on, or the end of the path.
fn find_part_end(path: &Vec<char>, from: usize) -> (end: usize)
    requires
        from <= path@.len(),
    ensures
        end == part_end(path@, from as int),
        from <= end <= path@.len(),
{
    let mut end = from;
    while end < path.len() && path[end] != '\\'
        invariant
            from <= end <= path@.len(),
            part_end(path@, from as int) == part_end(path@, end as int),
        decreases path@.len() - end,
    {
        end = end + 1;
    }
    end
}

/// Where the volume ends in a path that starts with `\\?\`.
fn find_volume_end(base: &str, path: &Vec<char>) -> (end: usize)
    requires
        path@ == base@,
        "\\\\?\\"@.is_prefix_of(base@),
    ensures
        end == volume_end(base@),
        4 <= end <= path@.len(),
{
    proof {
        reveal_strlit("\\\\?\\");
        reveal_strlit("\\\\?\\UNC\\");
    }
    if starts_with(base, "\\\\?\\UNC\\") {
        let server_end = find_part_end(path, 8);
        if server_end == path.len() {
            return server_end;
        }
        let share_end = find_part_end(path, server_end + 1);
        if share_end > server_end + 1 {
            share_end
        } else {
            server_end
        }
    } else {
        find_part_end(path, 4)
    }
}

/// The path of `leaf` in the directory `base`, which starts with `\\?\`.
fn join_verbatim(base: &str, leaf: &str) -> (path: String)
    requires
        is_verbatim(Platform::Windows, base@),
    ensures
        path@ == joined(Platform::Windows, base@, leaf@),
{
    let chars = text::chars_of(base);
    let volume = find_volume_end(base, &chars);
    let mut path = String::new();
    let mut i: usize = 0;
    while i < volume
        invariant
            i <= volume <= chars@.len(),
            chars@ == base@,
            path@ == base@.take(i as int),
        decreases volume - i,
    {
        path.push(chars[i]);
        i = i + 1;
        proof {
            assert(base@.take(i as int) =~= base@.take(i - 1).push(base@[i - 1]));
        }
    }
    let ghost start = path@;
    proof {
        assert(start + tidied(base@, volume as int, volume as int) =~= start);
    }
    while i < chars.len()
        invariant
            volume <= i <= chars@.len(),
            chars@ == base@,
            path@ == start + tidied(base@, volume as int, i as int),
        decreases chars@.len() - i,
    {
        let idle = chars[i] == '\\' && (i + 1 == chars.len() || chars[i + 1] == '\\');
        if !idle {
            path.push(chars[i]);
        }
        i = i + 1;
        proof {
            let before = tidied(base@, volume as int, i - 1);
            assert(start + before.push(base@[i - 1]) =~= (start + before).push(base@[i - 1]));
        }
    }
    path.append("\\");
    path.append(leaf);
    path
}

/// The path of `leaf`, a file name, in the directory `base`.
pub fn join(platform: Platform, base: &str, leaf: &str) -> (path: String)
    ensures
        path@ == joined(platform, base@, leaf@),
{
    let windows = platform == Platform::Windows;
    if windows && starts_with(base, "\\\\?\\") {
        return join_verbatim(base, leaf);
    }
    let chars = text::chars_of(base);
    let mut path = base.to_owned();
    if chars.len() > 0 {
        let last = chars[chars.len() - 1];
        let separated = last == '/' || (windows && last == '\\');
        let drive = windows && chars.len() == 2 && (('a' <= chars[0] && chars[0] <= 'z') || ('A'
            <= chars[0] && chars[0] <= 'Z')) && chars[1] == ':';
        if !separated && !drive {
            path.append(if windows { "\\" } else { "/" });
        }
    }
    path.append(leaf);
    path
}

/// `Ok` with the text of a path, or the error.
pub open spec fn path_of(result: Result<String, DirectoryError>) -> Result<
    Seq<char>,
    DirectoryError,
> {
    match result {
        Ok(path) => Ok(path@),
        Err(error) => Err(error),
    }
}

impl Directories {
    /// The user's home, or the directory that replaces it.
    pub open spec fn home_path(self) -> Result<Seq<char>, DirectoryError> {
        match (text::text_of(self.custom_home), text::text_of(self.home)) {
            (Some(custom), _) => Ok(custom),
            (None, Some(home)) => Ok(home),
            (None, None) => Err(DirectoryError::Home),
        }
    }

    /// Where configuration is kept.
    pub open spec fn config_dir_path(self) -> Result<Seq<char>, DirectoryError> {
        match (text::text_of(self.custom_home), text::text_of(self.config)) {
            (Some(custom), _) => Ok(joined(self.platform, custom, "config"@)),
            (None, Some(base)) => Ok(joined(self.platform, base, "mcp-pool"@)),
            (None, None) => Err(DirectoryError::Config),
        }
    }

    /// Where state is kept. Where no state directory is named, the local data
    /// directory serves.
    pub open spec fn state_dir_path(self) -> Result<Seq<char>, DirectoryError> {
        match (text::text_of(self.custom_home), text::text_of(self.state), text::text_of(self.data_local)) {
            (Some(custom), _, _) => Ok(joined(self.platform, custom, "state"@)),
            (None, Some(base), _) => Ok(joined(self.platform, base, "mcp-pool"@)),
            (None, None, Some(base)) => Ok(joined(self.platform, base, "mcp-pool"@)),
            (None, None, None) => Err(DirectoryError::State),
        }
    }

    /// Where the sockets of running servers are kept.
    pub open spec fn run_dir_path(self) -> Result<Seq<char>, DirectoryError> {
        match self.state_dir_path() {
            Ok(state) => Ok(joined(self.platform, state, "run"@)),
            Err(error) => Err(error),
        }
    }

    /// The configuration file.
    pub open spec fn config_file_path(self) -> Result<Seq<char>, DirectoryError> {
        match self.config_dir_path() {
            Ok(config) => Ok(joined(self.platform, config, "config.toml"@)),
            Err(error) => Err(error),
        }
    }

    /// The endpoint of the daemon.
    pub open spec fn control_endpoint(self) -> Seq<char> {
        match self.platform {
            Platform::Unix => match self.state_dir_path() {
                Ok(state) => joined(self.platform, state, "control.sock"@),
                Err(_) => "/tmp/mcp-pool-control.sock"@,
            },
            Platform::Windows => "\\\\.\\pipe\\mcp-pool-control"@,
        }
    }

    /// The endpoint of the server `name`.
    pub open spec fn server_endpoint(self, name: Seq<char>) -> Seq<char> {
        match self.platform {
            Platform::Unix => match self.run_dir_path() {
                Ok(run) => joined(self.platform, run, "mcp-pool-"@ + sanitized(name) + ".sock"@),
                Err(_) => "/tmp/"@ + ("mcp-pool-"@ + sanitized(name) + ".sock"@),
            },
            Platform::Windows => "\\\\.\\pipe\\mcp-pool-"@ + sanitized(name),
        }
    }
}

/// The user's home, or the directory that replaces it.
pub fn home_dir(directories: &Directories) -> (path: Result<String, DirectoryError>)
    ensures
        path_of(path) == directories.home_path(),
{
    match (&directories.custom_home, &directories.home) {
        (Some(custom), _) => Ok(custom.clone()),
        (None, Some(home)) => Ok(home.clone()),
        (None, None) => Err(DirectoryError::Home),
    }
}

/// Where configuration is kept.
pub fn config_dir(directories: &Directories) -> (path: Result<String, DirectoryError>)
    ensures
        path_of(path) == directories.config_dir_path(),
{
    match (&directories.custom_home, &directories.config) {
        (Some(custom), _) => Ok(join(directories.platform, custom.as_str(), "config")),
        (None, Some(base)) => Ok(join(directories.platform, base.as_str(), "mcp-pool")),
        (None, None) => Err(DirectoryError::Config),
    }
}

/// Where state is kept.
pub fn state_dir(directories: &Directories) -> (path: Result<String, DirectoryError>)
    ensures
        path_of(path) == directories.state_dir_path(),
{
    match (&directories.custom_home, &directories.state, &directories.data_local) {
        (Some(custom), _, _) => Ok(join(directories.platform, custom.as_str(), "state")),
        (None, Some(base), _) => Ok(join(directories.platform, base.as_str(), "mcp-pool")),
        (None, None, Some(base)) => Ok(join(directories.platform, base.as_str(), "mcp-pool")),
        (None, None, None) => Err(DirectoryError::State),
    }
}

/// Where the sockets of running servers are kept.
pub fn run_dir(directories: &Directories) -> (path: Result<String, DirectoryError>)
    ensures
        path_of(path) == directories.run_dir_path(),
{
    match state_dir(directories) {
        Ok(state) => Ok(join(directories.platform, state.as_str(), "run")),
        Err(error) => Err(error),
    }
}

/// The configuration file.
pub fn config_path(directories: &Directories) -> (path: Result<String, DirectoryError>)
    ensures
        path_of(path) == directories.config_file_path(),
{
    match config_dir(directories) {
        Ok(config) => Ok(join(directories.platform, config.as_str(), "config.toml")),
        Err(error) => Err(error),
    }
}

/// The endpoint of the daemon: a socket file in the state directory, or the name
/// of a pipe.
pub fn control_socket_path(directories: &Directories) -> (endpoint: String)
    ensures
        endpoint@ == directories.control_endpoint(),
{
    match directories.platform {
        Platform::Unix => match state_dir(directories) {
            Ok(state) => join(directories.platform, state.as_str(), "control.sock"),
            Err(_) => "/tmp/mcp-pool-control.sock".to_owned(),
        },
        Platform::Windows => "\\\\.\\pipe\\mcp-pool-control".to_owned(),
    }
}

/// The endpoint of the server `name`: a socket file in the run directory, or the
/// name of a pipe.
pub fn server_socket_path(directories: &Directories, name: &str) -> (endpoint: String)
    ensures
        endpoint@ == directories.server_endpoint(name@),
{
    let safe = sanitize_socket_name(name);
    match directories.platform {
        Platform::Unix => {
            let file = "mcp-pool-".to_owned().concat(safe.as_str()).concat(".sock");
            match run_dir(directories) {
                Ok(run) => join(directories.platform, run.as_str(), file.as_str()),
                Err(_) => "/tmp/".to_owned().concat(file.as_str()),
            }
        },
        Platform::Windows => "\\\\.\\pipe\\mcp-pool-".to_owned().concat(safe.as_str()),
    }
}

/// Whether a character may stand in a socket name.
pub open spec fn is_socket_char(ch: char) -> bool {
    ||| 'a' <= ch && ch <= 'z'
    ||| 'A' <= ch && ch <= 'Z'
    ||| '0' <= ch && ch <= '9'
    ||| ch == '-'
    ||| ch == '_'
}

/// The character that stands for `ch` in a socket name.
pub open spec fn socket_char(ch: char) -> char {
    if is_socket_char(ch) {
        ch
    } else {
        '_'
    }
}

/// The part of a socket name that stands for the server `name`.
pub open spec fn sanitized(name: Seq<char>) -> Seq<char> {
    if name.len() == 0 {
        "mcp"@
    } else {
        name.map_values(|ch: char| socket_char(ch))
    }
}

/// The part of a socket name that stands for the server `name`: every character
/// but ASCII letters, digits, `-` and `_` becomes `_`.
pub fn sanitize_socket_name(name: &str) -> (safe: String)
    ensures
        safe@ == sanitized(name@),
{
    let chars = text::chars_of(name);
    if chars.len() == 0 {
        return "mcp".to_owned();
    }
    let mut safe = String::new();
    let mut i: usize = 0;
    let ghost kept = |ch: char| socket_char(ch);
    while i < chars.len()
        invariant
            i <= chars.len(),
            chars@ == name@,
            kept == (|ch: char| socket_char(ch)),
            safe@ == name@.take(i as int).map_values(kept),
        decreases chars.len() - i,
    {
        let ch = chars[i];
        let allowed = ('a' <= ch && ch <= 'z') || ('A' <= ch && ch <= 'Z') || ('0' <= ch && ch
            <= '9') || ch == '-' || ch == '_';
        safe.push(if allowed { ch } else { '_' });
        i = i + 1;
        proof {
            assert(name@.take(i as int).map_values(kept) =~= name@.take(i - 1).map_values(
                kept,
            ).push(kept(name@[i - 1])));
        }
    }
    proof {
        assert(name@.take(i as int) =~= name@);
    }
    safe
}

/// A server name never leads out of the directory of sockets: what stands for it
/// is not empty and has no character beside ASCII letters, digits, `-` and `_`.
pub proof fn socket_names_are_safe(name: Seq<char>)
    ensures
        sanitized(name).len() > 0,
        forall|i: int| 0 <= i < sanitized(name).len() ==> is_socket_char(#[trigger] sanitized(name)[i]),
{
    reveal_strlit("mcp");
}

/// A name of allowed characters stands for itself.
pub proof fn safe_names_are_kept(name: Seq<char>)
    requires
        name.len() > 0,
        forall|i: int| 0 <= i < name.len() ==> is_socket_char(#[trigger] name[i]),
    ensures
        sanitized(name) == name,
{
    assert(sanitized(name) =~= name);
}

/// A configured MCP server: a local stdio command, or a remote HTTP or SSE URL.
#[derive(Debug)]
pub struct ServerDef {
    /// Executable of a stdio server.
    pub command: String,
    /// Arguments of the stdio command.
    pub args: Vec<String>,
    /// Environment variables of the stdio command.
    pub env: NameMap<String>,
    /// URL of a remote server.
    pub url: String,
    /// Remote transport, "http" or "sse". Without meaning for stdio.
    pub transport: String,
    /// Description for people.
    pub description: String,
}

impl Default for ServerDef {
    fn default() -> (def: ServerDef)
        ensures
            def.command@.len() == 0,
            def.args@.len() == 0,
            def.env@ == Map::<Seq<char>, String>::empty(),
            def.url@.len() == 0,
            def.transport@.len() == 0,
            def.description@.len() == 0,
    {
        ServerDef {
            command: String::new(),
            args: Vec::new(),
            env: NameMap::new(),
            url: String::new(),
            transport: String::new(),
            description: String::new(),
        }
    }
}

/// A copy of a list of strings.
pub fn copy_strings(strings: &Vec<String>) -> (copies: Vec<String>)
    ensures
        copies@ == strings@,
{
    let mut copies: Vec<String> = Vec::new();
    let mut i: usize = 0;
    while i < strings.len()
        invariant
            i <= strings.len(),
            copies@ == strings@.take(i as int),
        decreases strings.len() - i,
    {
        copies.push(strings[i].clone());
        i = i + 1;
        proof {
            assert(strings@.take(i as int) =~= strings@.take(i - 1).push(strings@[i - 1]));
        }
    }
    proof {
        assert(strings@.take(i as int) =~= strings@);
    }
    copies
}

/// A copy of environment variables.
pub fn copy_env(env: &NameMap<String>) -> (copy: NameMap<String>)
    ensures
        copy@ == env@,
{
    let mut copy: NameMap<String> = NameMap::new();
    let count = env.len();
    let ghost entries = env.entry_seq();
    let mut i: usize = 0;
    proof {
        assert(entries.take(0) =~= Seq::empty());
    }
    while i < count
        invariant
            i <= count,
            entries == env.entry_seq(),
            count == entries.len(),
            copy@ == crate::names::map_of(entries.take(i as int)),
        decreases count - i,
    {
        copy.insert(env.name_at(i).to_owned(), env.value_at(i).clone());
        i = i + 1;
        proof {
            assert(entries.take(i as int).drop_last() =~= entries.take(i - 1));
        }
    }
    proof {
        assert(entries.take(i as int) =~= entries);
    }
    copy
}

/// Whether two definitions say the same.
pub open spec fn same_def(a: ServerDef, b: ServerDef) -> bool {
    &&& a.command == b.command
    &&& a.args@ == b.args@
    &&& a.env@ == b.env@
    &&& a.url == b.url
    &&& a.transport == b.transport
    &&& a.description == b.description
}

impl Clone for ServerDef {
    fn clone(&self) -> (copy: ServerDef)
        ensures
            same_def(copy, *self),
    {
        ServerDef {
            command: self.command.clone(),
            args: copy_strings(&self.args),
            env: copy_env(&self.env),
            url: self.url.clone(),
            transport: self.transport.clone(),
            description: self.description.clone(),
        }
    }
}

impl ServerDef {
    /// Whether the server is reached by URL.
    pub open spec fn remote(self) -> bool {
        self.url@.len() > 0
    }

    /// Whether the transport is named "sse", in capital letters or not.
    pub open spec fn names_sse(self) -> bool {
        text::ascii_lowered(self.transport@) == "sse"@
    }

    /// The effective transport.
    pub open spec fn effective_transport(self) -> Seq<char> {
        if !self.remote() {
            "stdio"@
        } else if self.names_sse() {
            "sse"@
        } else {
            "http"@
        }
    }

    /// Whether the server is reached by URL.
    pub fn is_remote(&self) -> (remote: bool)
        ensures
            remote == self.remote(),
    {
        !self.url.as_str().is_empty()
    }

    /// Whether the transport is named "sse", in capital letters or not.
    pub fn is_sse(&self) -> (sse: bool)
        ensures
            sse == self.names_sse(),
    {
        proof {
            reveal_strlit("sse");
            assert(text::ascii_lowered("sse"@) =~= "sse"@);
        }
        same_ignoring_ascii_case(self.transport.as_str(), "sse")
    }

    /// The effective transport: "stdio", "http" or "sse".
    pub fn transport_kind(&self) -> (kind: &'static str)
        ensures
            kind@ == self.effective_transport(),
    {
        if self.is_remote() {
            if self.is_sse() {
                "sse"
            } else {
                "http"
            }
        } else {
            "stdio"
        }
    }
}

/// The configured servers, by name.
#[derive(Debug)]
pub struct PoolConfig {
    pub server: NameMap<ServerDef>,
}

impl Default for PoolConfig {
    fn default() -> (config: PoolConfig)
        ensures
            config.server@ == Map::<Seq<char>, ServerDef>::empty(),
    {
        PoolConfig { server: NameMap::new() }
    }
}

impl Clone for PoolConfig {
    fn clone(&self) -> (copy: PoolConfig)
        ensures
            copy.server@.dom() == self.server@.dom(),
            forall|name: Seq<char>| #[trigger]
                self.server@.dom().contains(name) ==> same_def(
                    copy.server@[name],
                    self.server@[name],
                ),
    {
        let mut server: NameMap<ServerDef> = NameMap::new();
        let count = self.server.len();
        let ghost entries = self.server.entry_seq();
        let mut i: usize = 0;
        proof {
            assert(server@.dom() =~= crate::names::map_of(entries.take(0)).dom());
        }
        while i < count
            invariant
                i <= count,
                entries == self.server.entry_seq(),
                count == entries.len(),
                server@.dom() == crate::names::map_of(entries.take(i as int)).dom(),
                forall|name: Seq<char>| #[trigger]
                    server@.dom().contains(name) ==> same_def(
                        server@[name],
                        crate::names::map_of(entries.take(i as int))[name],
                    ),
            decreases count - i,
        {
            let ghost before = crate::names::map_of(entries.take(i as int));
            server.insert(self.server.name_at(i).to_owned(), self.server.value_at(i).clone());
            i = i + 1;
            proof {
                assert(entries.take(i as int).drop_last() =~= entries.take(i - 1));
                assert(crate::names::map_of(entries.take(i as int)) == before.insert(
                    entries[i - 1].0,
                    entries[i - 1].1,
                ));
                assert(server@.dom() =~= crate::names::map_of(entries.take(i as int)).dom());
            }
        }
        proof {
            assert(entries.take(i as int) =~= entries);
        }
        PoolConfig { server }
    }
}

impl PoolConfig {
    /// Adds the server `name`, or replaces its definition.
    pub fn upsert(&mut self, name: &str, def: ServerDef)
        ensures
            final(self).server@ == old(self).server@.insert(name@, def),
    {
        self.server.insert(name.to_owned(), def);
    }

    /// Removes the server `name`, and says whether it was there.
    pub fn remove(&mut self, name: &str) -> (removed: bool)
        ensures
            final(self).server@ == old(self).server@.remove(name@),
            removed == old(self).server@.dom().contains(name@),
    {
        self.server.remove(name).is_some()
    }
}

/// A server that was added is there, and once removed it is not: what was known
/// of other servers is as before.
pub proof fn added_servers_can_be_removed(
    servers: Map<Seq<char>, ServerDef>,
    name: Seq<char>,
    def: ServerDef,
)
    ensures
        servers.insert(name, def).dom().contains(name),
        servers.insert(name, def)[name] == def,
        servers.insert(name, def).remove(name) == servers.remove(name),
        !servers.insert(name, def).remove(name).dom().contains(name),
{
    assert(servers.insert(name, def).remove(name) =~= servers.remove(name));
}

/// A step of writing the configuration.
#[derive(Debug)]
pub enum SaveStep {
    /// Create a directory and those above it.
    CreateDirectory(String),
    /// Write the configuration to a file.
    Write(String),
    /// Rename a file over another.
    Rename { from: String, to: String },
}

/// The steps that write the configuration file in the directory `config_dir`. The
/// file itself changes only in the last one, which puts a complete file in its
/// place.
pub fn save_steps(platform: Platform, config_dir: &str) -> (steps: Vec<SaveStep>)
    ensures
        steps@.len() == 3,
        steps@[0] matches SaveStep::CreateDirectory(directory) && directory@ == config_dir@,
        steps@[1] matches SaveStep::Write(path) && path@ == joined(
            platform,
            config_dir@,
            "config.toml.tmp"@,
        ),
        steps@[2] matches SaveStep::Rename { from, to } && from@ == joined(
            platform,
            config_dir@,
            "config.toml.tmp"@,
        ) && to@ == joined(platform, config_dir@, "config.toml"@),
{
    let temporary = join(platform, config_dir, "config.toml.tmp");
    let mut steps: Vec<SaveStep> = Vec::new();
    steps.push(SaveStep::CreateDirectory(config_dir.to_owned()));
    steps.push(SaveStep::Write(temporary.clone()));
    steps.push(SaveStep::Rename { from: temporary, to: join(platform, config_dir, "config.toml") });
    steps
}

/// What is said of a configuration file that cannot be read as one.
pub fn unreadable_config_message(path: &str, error: &str) -> (message: String)
    ensures
        message@ == path@ + ": "@ + error@,
{
    path.to_owned().concat(": ").concat(error)
}

} // verus!
