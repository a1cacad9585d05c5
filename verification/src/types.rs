//! What the pool reports about its servers.

use vstd::prelude::*;

use crate::json::{self, Json, JsonView};

verus! {

/// Whether a pooled server runs.
#[derive(Debug, Clone, Copy, PartialEq, Eq, Structural)]
pub enum ServerStatus {
    Stopped,
    Starting,
    Running,
}

impl ServerStatus {
    /// The word for the status.
    pub open spec fn wording(self) -> Seq<char> {
        match self {
            ServerStatus::Stopped => "stopped"@,
            ServerStatus::Starting => "starting"@,
            ServerStatus::Running => "running"@,
        }
    }

    /// The word for the status, in lower case.
    pub fn word(&self) -> (word: &'static str)
        ensures
            word@ == self.wording(),
    {
        match self {
            ServerStatus::Stopped => "stopped",
            ServerStatus::Starting => "starting",
            ServerStatus::Running => "running",
        }
    }
}

/// The report on one server.
#[derive(Debug)]
pub struct McpServerStatus {
    pub name: String,
    pub status: ServerStatus,
    pub socket_path: String,
    pub uptime_seconds: Option<u64>,
    pub connection_count: u32,
    pub owned: bool,
    pub transport: String,
}

/// The report on all servers.
#[derive(Debug)]
pub struct PoolStatusResponse {
    pub server_count: usize,
    pub servers: Vec<McpServerStatus>,
}

impl Clone for McpServerStatus {
    fn clone(&self) -> (copy: McpServerStatus)
        ensures
            copy == *self,
    {
        McpServerStatus {
            name: self.name.clone(),
            status: self.status,
            socket_path: self.socket_path.clone(),
            uptime_seconds: self.uptime_seconds,
            connection_count: self.connection_count,
            owned: self.owned,
            transport: self.transport.clone(),
        }
    }
}

impl Clone for PoolStatusResponse {
    fn clone(&self) -> (copy: PoolStatusResponse)
        ensures
            copy.server_count == self.server_count,
            copy.servers@ == self.servers@,
    {
        let mut servers: Vec<McpServerStatus> = Vec::new();
        let mut i: usize = 0;
        while i < self.servers.len()
            invariant
                i <= self.servers@.len(),
                servers@ == self.servers@.take(i as int),
            decreases self.servers@.len() - i,
        {
            servers.push(self.servers[i].clone());
            i = i + 1;
            proof {
                assert(self.servers@.take(i as int) =~= self.servers@.take(i - 1).push(
                    self.servers@[i - 1],
                ));
            }
        }
        proof {
            assert(self.servers@.take(i as int) =~= self.servers@);
        }
        PoolStatusResponse { server_count: self.server_count, servers }
    }
}

impl Default for PoolStatusResponse {
    fn default() -> (response: PoolStatusResponse)
        ensures
            response.server_count == 0,
            response.servers@.len() == 0,
    {
        PoolStatusResponse { server_count: 0, servers: Vec::new() }
    }
}

/// The JSON number for an optional count of seconds; `null` where there is none.
pub open spec fn seconds_view(seconds: Option<u64>) -> JsonView {
    match seconds {
        Some(number) => JsonView::Int(number as int),
        None => JsonView::Null,
    }
}

/// The JSON object for the report on one server.
pub open spec fn server_view(report: McpServerStatus) -> JsonView {
    JsonView::Object(
        Map::<Seq<char>, JsonView>::empty().insert("name"@, JsonView::Str(report.name@)).insert(
            "status"@,
            JsonView::Str(report.status.wording()),
        ).insert("socket_path"@, JsonView::Str(report.socket_path@)).insert(
            "uptime_seconds"@,
            seconds_view(report.uptime_seconds),
        ).insert("connection_count"@, JsonView::Int(report.connection_count as int)).insert(
            "owned"@,
            JsonView::Bool(report.owned),
        ).insert("transport"@, JsonView::Str(report.transport@)),
    )
}

/// The JSON object for the report on all servers.
pub open spec fn status_view(status: PoolStatusResponse) -> JsonView {
    JsonView::Object(
        Map::<Seq<char>, JsonView>::empty().insert(
            "server_count"@,
            JsonView::Int(status.server_count as int),
        ).insert(
            "servers"@,
            JsonView::Array(
                status.servers@.map_values(|report: McpServerStatus| server_view(report)),
            ),
        ),
    )
}

proof fn server_view_reads_back(report: McpServerStatus, levels: nat)
    requires
        levels > 0,
    ensures
        server_view(report).reads_back(levels),
{
    let f0 = Map::<Seq<char>, JsonView>::empty();
    let f1 = f0.insert("name"@, JsonView::Str(report.name@));
    let f2 = f1.insert("status"@, JsonView::Str(report.status.wording()));
    let f3 = f2.insert("socket_path"@, JsonView::Str(report.socket_path@));
    let f4 = f3.insert("uptime_seconds"@, seconds_view(report.uptime_seconds));
    let f5 = f4.insert("connection_count"@, JsonView::Int(report.connection_count as int));
    let f6 = f5.insert("owned"@, JsonView::Bool(report.owned));
    json::reads_back_with_field(f0, "name"@, f1["name"@], levels);
    json::reads_back_with_field(f1, "status"@, f2["status"@], levels);
    json::reads_back_with_field(f2, "socket_path"@, f3["socket_path"@], levels);
    json::reads_back_with_field(f3, "uptime_seconds"@, f4["uptime_seconds"@], levels);
    json::reads_back_with_field(f4, "connection_count"@, f5["connection_count"@], levels);
    json::reads_back_with_field(f5, "owned"@, f6["owned"@], levels);
    json::reads_back_with_field(f6, "transport"@, JsonView::Str(report.transport@), levels);
}

/// A report is read from its line as it was written.
pub proof fn reports_survive_their_line(status: PoolStatusResponse, line: Seq<char>)
    requires
        json::is_line_of(line, status_view(status)),
    ensures
        json::json_parsed(line) == Some(status_view(status)),
{
    let levels = json::NESTING_LIMIT as nat;
    let items = status.servers@.map_values(|report: McpServerStatus| server_view(report));
    let servers = JsonView::Array(items);
    assert forall|i: int| 0 <= i < items.len() implies (#[trigger] items[i]).reads_back(
        (levels - 2) as nat,
    ) by {
        server_view_reads_back(status.servers@[i], (levels - 2) as nat);
    }
    assert(servers.reads_back((levels - 1) as nat));
    let none = Map::<Seq<char>, JsonView>::empty();
    let count = JsonView::Int(status.server_count as int);
    json::reads_back_with_field(none, "server_count"@, count, levels);
    json::reads_back_with_field(none.insert("server_count"@, count), "servers"@, servers, levels);
}

impl McpServerStatus {
    /// The JSON object for the report.
    pub fn to_json(&self) -> (value: Json)
        ensures
            value@ == server_view(*self),
    {
        let uptime = match self.uptime_seconds {
            Some(seconds) => Json::Unsigned(seconds),
            None => Json::Null,
        };
        let mut fields = json::no_fields();
        json::put(&mut fields, "name", Json::string(self.name.as_str()));
        json::put(&mut fields, "status", Json::string(self.status.word()));
        json::put(&mut fields, "socket_path", Json::string(self.socket_path.as_str()));
        json::put(&mut fields, "uptime_seconds", uptime);
        json::put(&mut fields, "connection_count", Json::Unsigned(self.connection_count as u64));
        json::put(&mut fields, "owned", Json::Bool(self.owned));
        json::put(&mut fields, "transport", Json::string(self.transport.as_str()));
        proof {
            json::object_view(fields);
        }
        Json::Object(fields)
    }
}

impl PoolStatusResponse {
    /// The JSON object for the report.
    pub fn to_json(&self) -> (value: Json)
        ensures
            value@ == status_view(*self),
    {
        let ghost view = |report: McpServerStatus| server_view(report);
        let mut items: Vec<Json> = Vec::new();
        let mut i: usize = 0;
        while i < self.servers.len()
            invariant
                i <= self.servers@.len(),
                items@.len() == i,
                forall|j: int|
                    0 <= j < i ==> json::json_view(#[trigger] items@[j]) == server_view(
                        self.servers@[j],
                    ),
            decreases self.servers@.len() - i,
        {
            let item = self.servers[i].to_json();
            proof {
                assert(json::json_view(item) == item@);
            }
            items.push(item);
            i = i + 1;
        }
        proof {
            json::items_view_index(items@);
            assert(json::items_view(items@) =~= self.servers@.map_values(view));
        }
        let mut fields = json::no_fields();
        json::put(&mut fields, "server_count", Json::Unsigned(self.server_count as u64));
        json::put(&mut fields, "servers", Json::Array(items));
        proof {
            json::object_view(fields);
        }
        Json::Object(fields)
    }
}

} // verus!
