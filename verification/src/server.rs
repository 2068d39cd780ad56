//! The upstream face of dangler: a five-meta-tool MCP server over the fleet.
//!
//! The real tool surface lives downstream and is discovered at runtime —
//! dangler's own schema stays tiny and static.

use crate::config::ServerSpec;
use crate::fleet::{
    all_lowered_plainly, call_goes, can_warm, has_room, hits_view, is_status, known_rows, load_goes,
    not_indexed, persisted, same_but_children, search_hits, CallEvent, CallStep, Fleet, HitView,
    LoadEvent, LoadStep, Moment, ServerStatus, SpawnFailure, ToolHit, ToolRequest,
};
use crate::json::{items_view, json_pretty, texts_view, Json, JsonView};
use crate::mcp::{
    defs_view, described, described_view, shape, shape_view, strict_shape, strict_shape_view,
    text_result, tool, typed, typed_view, unknown, DefView, ServerInfo, ToolDef, ToolError,
};
use crate::text::{lowered_plainly, same, text_view};
use crate::tool::{tools_view, ToolSchema, ToolView};
use vstd::prelude::*;
use vstd::string::*;

verus! {

// Meta-tool names — the single source of truth shared by the advertised tool
// list and the dispatch below.
pub const TOOL_LIST_SERVERS: &'static str = "list_servers";

pub const TOOL_SEARCH_TOOLS: &'static str = "search_tools";

pub const TOOL_LOAD_SERVER: &'static str = "load_server";

pub const TOOL_CALL_TOOL: &'static str = "call_tool";

pub const TOOL_DROP_SERVER: &'static str = "drop_server";

pub const ABOUT_LIST_SERVERS: &'static str =
    "List the configured downstream MCP servers: name, warm/cold status, and \
     cached tool count (if the server has been loaded before).";

pub const ABOUT_SEARCH_TOOLS: &'static str =
    "Search tool names and descriptions across all downstream servers whose \
     schemas are cached. Servers never loaded are not indexed yet — the result \
     names them so you can load_server them first.";

pub const ABOUT_LOAD_SERVER: &'static str =
    "Spawn a downstream server (if cold) and return its full tool schemas. \
     Use this to see exactly how to call its tools via call_tool.";

pub const ABOUT_CALL_TOOL: &'static str =
    "Call a tool on a downstream server (spawns it if cold). 'arguments' must \
     match the tool's schema as returned by load_server.";

pub const ABOUT_DROP_SERVER: &'static str =
    "Stop a running downstream server and free its process. Its cached schemas \
     remain searchable.";

pub const INSTRUCTIONS: &'static str =
    "dangler fronts a fleet of MCP servers so their schemas don't all load up \
     front. Discover with list_servers/search_tools, inspect with load_server, \
     then drive real work with call_tool {server, tool, arguments}.";

/// The meta-tools.
#[derive(Debug, Clone, Copy, PartialEq, Eq, Structural)]
pub enum MetaTool {
    ListServers,
    SearchTools,
    LoadServer,
    CallTool,
    DropServer,
}

/// The meta-tool of that name.
pub open spec fn meta_tool_named(name: Seq<char>) -> Option<MetaTool> {
    if name == TOOL_LIST_SERVERS@ {
        Some(MetaTool::ListServers)
    } else if name == TOOL_SEARCH_TOOLS@ {
        Some(MetaTool::SearchTools)
    } else if name == TOOL_LOAD_SERVER@ {
        Some(MetaTool::LoadServer)
    } else if name == TOOL_CALL_TOOL@ {
        Some(MetaTool::CallTool)
    } else if name == TOOL_DROP_SERVER@ {
        Some(MetaTool::DropServer)
    } else {
        None
    }
}

/// A meta-tool call with its arguments. `A` is what the arguments of
/// downstream tools are.
#[derive(Debug)]
pub enum MetaCall<A> {
    ListServers,
    SearchTools { query: String },
    LoadServer { name: String },
    CallTool { server: String, request: ToolRequest<A> },
    DropServer { name: String },
}

/// What happened to a meta-tool call. `R` is what downstream tools answer.
#[derive(Debug)]
pub enum MetaEvent<R> {
    /// The call came in.
    Begin,
    /// The downstream server was spawned, or could not be.
    Spawned(Result<(), SpawnFailure>),
    /// The downstream server that the ticket is for listed its tools, or failed
    /// to.
    Listed { ticket: u64, listed: Result<Vec<ToolSchema>, String> },
    /// The downstream server that the ticket is for answered, or the call
    /// failed.
    Answered { ticket: u64, answer: Result<R, String> },
}

/// What a meta-tool call does next.
#[derive(Debug)]
pub enum MetaStep<'a, A, R> {
    /// Spawn the downstream server.
    Spawn,
    /// Have the downstream server list all its tools.
    List { ticket: u64 },
    /// Call the downstream server with just this.
    Call { ticket: u64, request: &'a ToolRequest<A> },
    /// Answer with this text.
    Reply(String),
    /// Write the cache file, then answer with this text.
    Loaded { reply: String, cache_file: String },
    /// Stop the process where it was running, then answer with this text.
    Dropped { reply: String, running: bool },
    /// Answer with what the downstream tool answered, verbatim.
    Relay(R),
    /// Answer with this error.
    Fail(ToolError),
}

/// What list_servers says of one server.
pub open spec fn server_row(fleet: Fleet, name: Seq<char>, spec: ServerSpec) -> JsonView {
    let row = JsonView::object().with("name"@, JsonView::Str(name)).with(
        "status"@,
        JsonView::Str(
            if fleet.children@.contains_key(name) {
                "warm"@
            } else {
                "cold"@
            },
        ),
    ).with(
        "cached_tools"@,
        if fleet.cache@.contains_key(name) {
            JsonView::UInt(fleet.cache@[name].len() as u64)
        } else {
            JsonView::Null
        },
    );
    row.with_text("identity"@, text_view(spec.identity)).with_text(
        "setup_hint"@,
        text_view(spec.setup_hint),
    )
}

/// The answer of list_servers.
pub open spec fn servers_reply(fleet: Fleet) -> JsonView {
    let rows = fleet.config.servers.rows();
    JsonView::object().with(
        "servers"@,
        JsonView::Array(Seq::new(rows.len(), |i: int| server_row(fleet, rows[i].0, rows[i].1))),
    )
}

/// What search_tools says of one hit.
pub open spec fn hit_row(hit: HitView) -> JsonView {
    JsonView::object().with("server"@, JsonView::Str(hit.server)).with(
        "tool"@,
        JsonView::Str(hit.tool),
    ).with("description"@, JsonView::Str(hit.description)).with_text("identity"@, hit.identity)
}

/// The answer of search_tools.
pub open spec fn search_reply(hits: Seq<HitView>, not_indexed_yet: Seq<Seq<char>>) -> JsonView {
    JsonView::object().with(
        "hits"@,
        JsonView::Array(Seq::new(hits.len(), |i: int| hit_row(hits[i]))),
    ).with("not_indexed_yet"@, texts_view(not_indexed_yet))
}

/// The answer of load_server.
pub open spec fn load_reply(name: Seq<char>, tools: Seq<ToolView>) -> JsonView {
    JsonView::object().with("server"@, JsonView::Str(name)).with(
        "tools"@,
        JsonView::Array(Seq::new(tools.len(), |i: int| tools[i].json)),
    )
}

/// The answer of drop_server.
pub open spec fn drop_reply(name: Seq<char>, running: bool) -> JsonView {
    JsonView::object().with("server"@, JsonView::Str(name)).with(
        "dropped"@,
        JsonView::Bool(running),
    )
}

/// The static meta-tool surface.
pub open spec fn meta_tools_view() -> Seq<DefView> {
    Seq::empty().push(
        DefView {
            name: TOOL_LIST_SERVERS@,
            description: ABOUT_LIST_SERVERS@,
            input_schema: shape_view(JsonView::object()),
        },
    ).push(
        DefView {
            name: TOOL_SEARCH_TOOLS@,
            description: ABOUT_SEARCH_TOOLS@,
            input_schema: strict_shape_view(
                JsonView::object().with(
                    "query"@,
                    described_view("string"@, "substring, case-insensitive"@),
                ),
                JsonView::list().item(JsonView::Str("query"@)),
            ),
        },
    ).push(
        DefView {
            name: TOOL_LOAD_SERVER@,
            description: ABOUT_LOAD_SERVER@,
            input_schema: strict_shape_view(
                JsonView::object().with(
                    "name"@,
                    described_view("string"@, "server name from list_servers"@),
                ),
                JsonView::list().item(JsonView::Str("name"@)),
            ),
        },
    ).push(
        DefView {
            name: TOOL_CALL_TOOL@,
            description: ABOUT_CALL_TOOL@,
            input_schema: strict_shape_view(
                JsonView::object().with("server"@, typed_view("string"@)).with(
                    "tool"@,
                    typed_view("string"@),
                ).with(
                    "arguments"@,
                    described_view("object"@, "arguments for the downstream tool"@),
                ),
                JsonView::list().item(JsonView::Str("server"@)).item(JsonView::Str("tool"@)),
            ),
        },
    ).push(
        DefView {
            name: TOOL_DROP_SERVER@,
            description: ABOUT_DROP_SERVER@,
            input_schema: strict_shape_view(
                JsonView::object().with("name"@, typed_view("string"@)),
                JsonView::list().item(JsonView::Str("name"@)),
            ),
        },
    )
}

/// The event can happen to the call.
pub open spec fn can_happen<A, R>(call: MetaCall<A>, event: MetaEvent<R>) -> bool {
    match event {
        MetaEvent::Begin => true,
        MetaEvent::Spawned(_) => call is LoadServer || call is CallTool,
        MetaEvent::Listed { ticket, listed } => call is LoadServer,
        MetaEvent::Answered { ticket, answer } => call is CallTool,
    }
}

/// The downstream server that the call goes to.
pub open spec fn target<A>(call: MetaCall<A>) -> Seq<char> {
    match call {
        MetaCall::LoadServer { name } => name@,
        MetaCall::CallTool { server, request } => server@,
        MetaCall::DropServer { name } => name@,
        _ => Seq::empty(),
    }
}

impl<'a, A, R> MetaStep<'a, A, R> {
    /// The step of a load that this step stands for.
    pub open spec fn loading(self) -> LoadStep {
        match self {
            MetaStep::Spawn => LoadStep::Spawn,
            MetaStep::List { ticket } => LoadStep::List { ticket },
            MetaStep::Fail(e) => LoadStep::Failed(e.message),
            _ => LoadStep::Loaded,
        }
    }

    /// The step stands for a step of a load.
    pub open spec fn is_loading(self) -> bool {
        match self {
            MetaStep::Spawn | MetaStep::List { .. } | MetaStep::Loaded { .. } => true,
            MetaStep::Fail(e) => e.kind is Internal,
            _ => false,
        }
    }

    /// The step of a call of a downstream tool that this step stands for.
    pub open spec fn calling(self) -> CallStep<'a, A, R> {
        match self {
            MetaStep::Call { ticket, request } => CallStep::Call { ticket, request },
            MetaStep::Relay(answer) => CallStep::Relay(answer),
            MetaStep::Fail(e) => CallStep::Failed(e.message),
            _ => CallStep::Spawn,
        }
    }

    /// The step stands for a step of a call of a downstream tool.
    pub open spec fn is_calling(self) -> bool {
        match self {
            MetaStep::Spawn | MetaStep::Call { .. } | MetaStep::Relay(_) => true,
            MetaStep::Fail(e) => e.kind is Internal,
            _ => false,
        }
    }
}

impl<R> MetaEvent<R> {
    /// What the event is to a load.
    pub open spec fn to_load(self) -> LoadEvent {
        match self {
            MetaEvent::Spawned(outcome) => LoadEvent::Spawned(outcome),
            MetaEvent::Listed { ticket, listed } => LoadEvent::Listed { ticket, listed },
            _ => LoadEvent::Begin,
        }
    }

    /// What the event is to a call of a downstream tool.
    pub open spec fn to_call(self) -> CallEvent<R> {
        match self {
            MetaEvent::Spawned(outcome) => CallEvent::Spawned(outcome),
            MetaEvent::Answered { ticket, answer } => CallEvent::Answered { ticket, answer },
            _ => CallEvent::Begin,
        }
    }
}

/// A call of load_server goes from `before` to `after` with `step`: as the load
/// does, and once the tools are known, it answers with them and has the cache
/// written.
pub open spec fn meta_load_goes<A, R>(
    before: Fleet,
    after: Fleet,
    name: Seq<char>,
    event: MetaEvent<R>,
    now: Moment,
    step: MetaStep<'_, A, R>,
) -> bool {
    &&& step.is_loading()
    &&& load_goes(before, after, name, event.to_load(), now, step.loading())
    &&& step matches MetaStep::Loaded { reply, cache_file } ==> {
        &&& event matches MetaEvent::Listed { ticket, listed: Ok(tools) }
        &&& reply@ == json_pretty(load_reply(name, tools_view(tools@)))
        &&& persisted(after, cache_file@)
    }
}

/// MCP server handler exposing the meta-tools; all real work delegates to [`Fleet`].
#[derive(Debug)]
pub struct Dangler {
    pub fleet: Fleet,
}

/// What list_servers says of one server.
fn status_json(
    s: &ServerStatus,
    Ghost(fleet): Ghost<Fleet>,
    Ghost(name): Ghost<Seq<char>>,
    Ghost(spec): Ghost<ServerSpec>,
) -> (r: Json)
    requires
        is_status(*s, fleet, name, spec),
    ensures
        r@ == server_row(fleet, name, spec),
{
    let status: &str = if s.warm {
        "warm"
    } else {
        "cold"
    };
    let count: Json = match s.cached_tools {
        Some(n) => Json::UInt(n as u64),
        None => Json::Null,
    };
    let row: Json = Json::object().with("name", Json::text(s.name.as_str())).with(
        "status",
        Json::text(status),
    ).with("cached_tools", count);
    row.with_text("identity", &s.identity).with_text("setup_hint", &s.setup_hint)
}

/// What search_tools says of one hit.
fn hit_json(hit: &ToolHit) -> (r: Json)
    ensures
        r@ == hit_row(hit@),
{
    let row: Json = Json::object().with("server", Json::text(hit.server.as_str())).with(
        "tool",
        Json::text(hit.tool.as_str()),
    ).with("description", Json::text(hit.description.as_str()));
    row.with_text("identity", &hit.identity)
}

impl Dangler {
    /// The handler of `fleet`.
    pub fn new(fleet: Fleet) -> (r: Dangler)
        ensures
            r.fleet == fleet,
    {
        Dangler { fleet }
    }

    /// The static meta-tool surface — the only schemas an MCP client ever pays
    /// for up front.
    pub fn meta_tools() -> (r: Vec<ToolDef>)
        ensures
            defs_view(r@) == meta_tools_view(),
    {
        let mut v: Vec<ToolDef> = Vec::new();
        v.push(tool(TOOL_LIST_SERVERS, ABOUT_LIST_SERVERS, shape(Json::object())));
        v.push(
            tool(
                TOOL_SEARCH_TOOLS,
                ABOUT_SEARCH_TOOLS,
                strict_shape(
                    Json::object().with(
                        "query",
                        described("string", "substring, case-insensitive"),
                    ),
                    Json::list().item(Json::text("query")),
                ),
            ),
        );
        v.push(
            tool(
                TOOL_LOAD_SERVER,
                ABOUT_LOAD_SERVER,
                strict_shape(
                    Json::object().with(
                        "name",
                        described("string", "server name from list_servers"),
                    ),
                    Json::list().item(Json::text("name")),
                ),
            ),
        );
        v.push(
            tool(
                TOOL_CALL_TOOL,
                ABOUT_CALL_TOOL,
                strict_shape(
                    Json::object().with("server", typed("string")).with(
                        "tool",
                        typed("string"),
                    ).with(
                        "arguments",
                        described("object", "arguments for the downstream tool"),
                    ),
                    Json::list().item(Json::text("server")).item(Json::text("tool")),
                ),
            ),
        );
        v.push(
            tool(
                TOOL_DROP_SERVER,
                ABOUT_DROP_SERVER,
                strict_shape(
                    Json::object().with("name", typed("string")),
                    Json::list().item(Json::text("name")),
                ),
            ),
        );
        assert(defs_view(v@) =~= meta_tools_view());
        v
    }

    /// How dangler introduces itself.
    pub fn get_info() -> (r: ServerInfo)
        ensures
            r.name@ == "dangler"@,
            r.instructions@ == INSTRUCTIONS@,
    {
        ServerInfo { name: "dangler", instructions: INSTRUCTIONS }
    }

    /// The meta-tool that a request names.
    pub fn route(name: &str) -> (r: Result<MetaTool, ToolError>)
        ensures
            r is Ok <==> meta_tool_named(name@) is Some,
            r matches Ok(t) ==> meta_tool_named(name@) == Some(t),
            r matches Err(e) ==> e@ == unknown(name@),
    {
        if same(name, TOOL_LIST_SERVERS) {
            Ok(MetaTool::ListServers)
        } else if same(name, TOOL_SEARCH_TOOLS) {
            Ok(MetaTool::SearchTools)
        } else if same(name, TOOL_LOAD_SERVER) {
            Ok(MetaTool::LoadServer)
        } else if same(name, TOOL_CALL_TOOL) {
            Ok(MetaTool::CallTool)
        } else if same(name, TOOL_DROP_SERVER) {
            Ok(MetaTool::DropServer)
        } else {
            Err(ToolError::unknown_tool(name))
        }
    }

    /// The configured fleet: name, status, tool count, identity and setup hint.
    pub fn list_servers(&self) -> (r: Json)
        ensures
            r@ == servers_reply(self.fleet),
    {
        let statuses: Vec<ServerStatus> = self.fleet.statuses();
        let ghost rows = self.fleet.config.servers.rows();
        let mut out: Vec<Json> = Vec::new();
        let mut i: usize = 0;
        while i < statuses.len()
            invariant
                rows == self.fleet.config.servers.rows(),
                statuses@.len() == rows.len(),
                forall|k: int|
                    0 <= k < statuses@.len() ==> is_status(
                        #[trigger] statuses@[k],
                        self.fleet,
                        rows[k].0,
                        rows[k].1,
                    ),
                i <= statuses@.len(),
                out@.len() == i,
                forall|k: int|
                    0 <= k < i ==> (#[trigger] out@[k])@ == server_row(
                        self.fleet,
                        rows[k].0,
                        rows[k].1,
                    ),
            decreases statuses.len() - i,
        {
            out.push(
                status_json(
                    &statuses[i],
                    Ghost(self.fleet),
                    Ghost(rows[i as int].0),
                    Ghost(rows[i as int].1),
                ),
            );
            i = i + 1;
        }
        assert(items_view(out@) =~= Seq::new(
            rows.len(),
            |k: int| server_row(self.fleet, rows[k].0, rows[k].1),
        ));
        Json::object().with("servers", Json::array(out))
    }

    /// Tool names and descriptions across the fleet's cached schemas, and the
    /// servers that were never loaded.
    pub fn search_tools(&self, query: &str) -> (r: Json)
        ensures
            r@ == search_reply(
                search_hits(self.fleet.config, known_rows(self.fleet.cache.rows()), query@),
                not_indexed(self.fleet.config.servers.rows(), self.fleet.cache@),
            ),
            lowered_plainly(query@),
            all_lowered_plainly(known_rows(self.fleet.cache.rows())),
    {
        let hits: Vec<ToolHit> = self.fleet.search(query);
        let ghost found = hits_view(hits@);
        let mut out: Vec<Json> = Vec::new();
        let mut i: usize = 0;
        while i < hits.len()
            invariant
                found == hits_view(hits@),
                i <= hits@.len(),
                out@.len() == i,
                forall|k: int| 0 <= k < i ==> (#[trigger] out@[k])@ == hit_row(found[k]),
            decreases hits.len() - i,
        {
            out.push(hit_json(&hits[i]));
            i = i + 1;
        }
        let unindexed: Vec<String> = self.fleet.unindexed();
        assert(items_view(out@) =~= Seq::new(found.len(), |k: int| hit_row(found[k])));
        Json::object().with("hits", Json::array(out)).with(
            "not_indexed_yet",
            Json::texts(&unindexed),
        )
    }

    /// The full tool schemas of a server that was loaded.
    fn loaded_tools(&self, name: &str) -> (r: Json)
        requires
            self.fleet.cache@.contains_key(name@),
        ensures
            r@ == load_reply(name@, tools_view(self.fleet.cache@[name@]@)),
    {
        let mut out: Vec<Json> = Vec::new();
        let ghost tools = tools_view(self.fleet.cache@[name@]@);
        if let Some(held) = self.fleet.cache.get(name) {
            let mut i: usize = 0;
            while i < held.len()
                invariant
                    tools == tools_view(held@),
                    i <= held@.len(),
                    out@.len() == i,
                    forall|k: int| 0 <= k < i ==> (#[trigger] out@[k])@ == tools[k].json,
                decreases held.len() - i,
            {
                out.push(held[i].json().copy());
                i = i + 1;
            }
        }
        assert(items_view(out@) =~= Seq::new(tools.len(), |k: int| tools[k].json));
        Json::object().with("server", Json::text(name)).with("tools", Json::array(out))
    }

    /// One step of a meta-tool call, from what happened to what is to be done.
    pub fn call_tool<'a, A, R>(
        &mut self,
        call: &'a MetaCall<A>,
        event: MetaEvent<R>,
        now: Moment,
    ) -> (r: MetaStep<'a, A, R>)
        requires
            can_happen(*call, event),
            event is Begin && (call is LoadServer || call is CallTool) ==> has_room(
                old(self).fleet,
                target(*call),
            ),
            event is Spawned ==> old(self).fleet.config.servers@.contains_key(target(*call)),
            event matches MetaEvent::Spawned(Ok(())) ==> can_warm(old(self).fleet, target(*call)),
        ensures
            match *call {
                MetaCall::ListServers => {
                    &&& final(self).fleet == old(self).fleet
                    &&& r matches MetaStep::Reply(t)
                    &&& t@ == json_pretty(servers_reply(old(self).fleet))
                },
                MetaCall::SearchTools { query } => {
                    &&& final(self).fleet == old(self).fleet
                    &&& r matches MetaStep::Reply(t)
                    &&& t@ == json_pretty(
                        search_reply(
                            search_hits(
                                old(self).fleet.config,
                                known_rows(old(self).fleet.cache.rows()),
                                query@,
                            ),
                            not_indexed(
                                old(self).fleet.config.servers.rows(),
                                old(self).fleet.cache@,
                            ),
                        ),
                    )
                    &&& lowered_plainly(query@)
                    &&& all_lowered_plainly(known_rows(old(self).fleet.cache.rows()))
                },
                MetaCall::DropServer { name } => {
                    &&& same_but_children(old(self).fleet, final(self).fleet)
                    &&& final(self).fleet.children@ == old(self).fleet.children@.remove(name@)
                    &&& r matches MetaStep::Dropped { reply, running }
                    &&& running == old(self).fleet.children@.contains_key(name@)
                    &&& reply@ == json_pretty(drop_reply(name@, running))
                },
                MetaCall::LoadServer { name } => meta_load_goes(
                    old(self).fleet,
                    final(self).fleet,
                    name@,
                    event,
                    now,
                    r,
                ),
                MetaCall::CallTool { server, request } => {
                    &&& r.is_calling()
                    &&& call_goes(
                        old(self).fleet,
                        final(self).fleet,
                        server@,
                        request,
                        event.to_call(),
                        now,
                        r.calling(),
                    )
                },
            },
            old(self).fleet.well_formed() ==> final(self).fleet.well_formed(),
    {
        match call {
            MetaCall::ListServers => {
                let j: Json = self.list_servers();
                MetaStep::Reply(text_result(&j))
            },
            MetaCall::SearchTools { query } => {
                let j: Json = self.search_tools(query.as_str());
                MetaStep::Reply(text_result(&j))
            },
            MetaCall::DropServer { name } => {
                let running: bool = self.fleet.drop_server(name.as_str());
                let j: Json = Json::object().with("server", Json::text(name.as_str())).with(
                    "dropped",
                    Json::Bool(running),
                );
                MetaStep::Dropped { reply: text_result(&j), running }
            },
            MetaCall::LoadServer { name } => {
                let e: LoadEvent = match event {
                    MetaEvent::Spawned(outcome) => LoadEvent::Spawned(outcome),
                    MetaEvent::Listed { ticket, listed } => LoadEvent::Listed { ticket, listed },
                    _ => LoadEvent::Begin,
                };
                let step: LoadStep = self.fleet.load(name.as_str(), e, now);
                match step {
                    LoadStep::Spawn => MetaStep::Spawn,
                    LoadStep::List { ticket } => MetaStep::List { ticket },
                    LoadStep::Loaded => {
                        let j: Json = self.loaded_tools(name.as_str());
                        MetaStep::Loaded {
                            reply: text_result(&j),
                            cache_file: self.fleet.persist_cache(),
                        }
                    },
                    LoadStep::Failed(m) => MetaStep::Fail(ToolError::internal_error(m)),
                }
            },
            MetaCall::CallTool { server, request } => {
                let e: CallEvent<R> = match event {
                    MetaEvent::Spawned(outcome) => CallEvent::Spawned(outcome),
                    MetaEvent::Answered { ticket, answer } => CallEvent::Answered {
                        ticket,
                        answer,
                    },
                    _ => CallEvent::Begin,
                };
                let step: CallStep<'a, A, R> = self.fleet.call(server.as_str(), request, e, now);
                match step {
                    CallStep::Spawn => MetaStep::Spawn,
                    CallStep::Call { ticket, request: sent } => MetaStep::Call {
                        ticket,
                        request: sent,
                    },
                    CallStep::Relay(answer) => MetaStep::Relay(answer),
                    CallStep::Failed(m) => MetaStep::Fail(ToolError::internal_error(m)),
                }
            },
        }
    }
}

/// The meta-tools on offer are exactly those that a request can name: each
/// advertised name is routed to its own tool, and every other name is refused.
pub proof fn law_offered_is_routed(name: Seq<char>)
    ensures
        (exists|i: int| 0 <= i < meta_tools_view().len() && (#[trigger] meta_tools_view()[i]).name
            == name) <==> meta_tool_named(name) is Some,
        meta_tool_named(TOOL_LIST_SERVERS@) == Some(MetaTool::ListServers),
        meta_tool_named(TOOL_SEARCH_TOOLS@) == Some(MetaTool::SearchTools),
        meta_tool_named(TOOL_LOAD_SERVER@) == Some(MetaTool::LoadServer),
        meta_tool_named(TOOL_CALL_TOOL@) == Some(MetaTool::CallTool),
        meta_tool_named(TOOL_DROP_SERVER@) == Some(MetaTool::DropServer),
{
    reveal_strlit("list_servers");
    reveal_strlit("search_tools");
    reveal_strlit("load_server");
    reveal_strlit("call_tool");
    reveal_strlit("drop_server");
    assert("list_servers"@[0] != "search_tools"@[0]);
    assert("load_server"@[0] != "drop_server"@[0]);
    let all = meta_tools_view();
    assert(all.len() == 5);
    assert(all[0].name == TOOL_LIST_SERVERS@);
    assert(all[1].name == TOOL_SEARCH_TOOLS@);
    assert(all[2].name == TOOL_LOAD_SERVER@);
    assert(all[3].name == TOOL_CALL_TOOL@);
    assert(all[4].name == TOOL_DROP_SERVER@);
}

} // verus!
