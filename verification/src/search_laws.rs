//! What the meta-tools answer, told by what the fleet holds.

use crate::config::{Config, ServerSpec};
use crate::fleet::{
    is_status, known_rows, load_goes, not_indexed, opened, search_hits, server_hits, CallEvent,
    CallStep, Child, Fleet, HitView, LoadEvent, LoadStep, Moment, ServerStatus,
};
use crate::fleet_laws::{has_source, hit_for, law_search_finds_exactly_the_matches, stands_for};
use crate::json::{json_pretty, texts_view, JsonView};
use crate::json_laws::{
    law_empty_object_has_no_member, law_texts_stand_in_their_places, law_with_adds_one_member,
    law_with_text_adds_what_is_set, one_if, text_member,
};
use crate::mcp::ErrorKind;
use crate::server::{
    drop_reply, hit_row, law_offered_is_routed, load_reply, meta_load_goes, meta_tool_named,
    search_reply, server_row, servers_reply, MetaEvent, MetaStep, MetaTool,
};
use crate::text::{has, lowercase, text_view};
use crate::tool::{cache_read, cache_text, tools_view, ToolSchema, ToolView};
use vstd::prelude::*;
use vstd::string::*;

verus! {

/// The query in small letters stands somewhere in the tool's name in small
/// letters, or somewhere in its whole description in small letters; a tool
/// without a description has an empty one.
pub open spec fn holds_query(tool: ToolView, query: Seq<char>) -> bool {
    ||| has(lowercase(tool.name), lowercase(query))
    ||| tool.description is Some && has(lowercase(tool.description->0), lowercase(query))
    ||| tool.description is None && has(lowercase(""@), lowercase(query))
}

/// The hit tells of the tool of `server` what a caller needs to know: the
/// server, the tool's name, its whole description, and which account the server
/// is configured to act as.
pub open spec fn tells_of(
    hit: HitView,
    config: Config,
    server: Seq<char>,
    tool: ToolView,
) -> bool {
    &&& hit.server == server
    &&& hit.tool == tool.name
    &&& tool.description is Some ==> hit.description == tool.description->0
    &&& tool.description is None ==> hit.description == ""@
    &&& config.servers@.contains_key(server) ==> hit.identity == text_view(
        config.servers@[server].identity,
    )
    &&& !config.servers@.contains_key(server) ==> hit.identity is None
}

/// One tool is found exactly where it holds the query, and then told of.
pub proof fn law_a_tool_is_found_where_it_holds_the_query(
    config: Config,
    server: Seq<char>,
    tool: ToolView,
    query: Seq<char>,
)
    ensures
        holds_query(tool, query) ==> {
            let hits = server_hits(config, server, seq![tool], query);
            hits.len() == 1 && tells_of(hits[0], config, server, tool)
        },
        !holds_query(tool, query) ==> server_hits(config, server, seq![tool], query).len() == 0,
{
    reveal_with_fuel(server_hits, 2);
    assert(seq![tool].drop_last() =~= Seq::empty());
    assert(server_hits(config, server, seq![tool].drop_last(), query) == Seq::<HitView>::empty());
}

/// A search looks at every tool of a server, once and in the server's order:
/// of two lists, one behind the other, it finds what it finds in the first and
/// then what it finds in the second.
pub proof fn law_search_looks_at_every_tool(
    config: Config,
    server: Seq<char>,
    a: Seq<ToolView>,
    b: Seq<ToolView>,
    query: Seq<char>,
)
    ensures
        server_hits(config, server, a + b, query) == server_hits(config, server, a, query)
            + server_hits(config, server, b, query),
        server_hits(config, server, Seq::empty(), query).len() == 0,
    decreases b.len(),
{
    let x = server_hits(config, server, a, query);
    let y = server_hits(config, server, b, query);
    if b.len() == 0 {
        assert(a + b =~= a);
        assert(x + y =~= x);
    } else {
        law_search_looks_at_every_tool(config, server, a, b.drop_last(), query);
        assert((a + b).drop_last() =~= a + b.drop_last());
        assert((a + b).last() == b.last());
        assert(server_hits(config, server, a + b, query) =~= x + y);
    }
}

/// A search looks at every server whose tools are known, once and in order.
pub proof fn law_search_looks_at_every_server(
    config: Config,
    a: Seq<(Seq<char>, Seq<ToolView>)>,
    b: Seq<(Seq<char>, Seq<ToolView>)>,
    server: Seq<char>,
    tools: Seq<ToolView>,
    query: Seq<char>,
)
    ensures
        search_hits(config, a + b, query) == search_hits(config, a, query) + search_hits(
            config,
            b,
            query,
        ),
        search_hits(config, Seq::empty(), query).len() == 0,
        search_hits(config, seq![(server, tools)], query) == server_hits(
            config,
            server,
            tools,
            query,
        ),
    decreases b.len(),
{
    reveal_with_fuel(search_hits, 2);
    let x = search_hits(config, a, query);
    let y = search_hits(config, b, query);
    let one = seq![(server, tools)];
    assert(one.drop_last() =~= Seq::empty());
    assert(search_hits(config, one.drop_last(), query) == Seq::<HitView>::empty());
    assert(search_hits(config, one, query) =~= server_hits(config, server, tools, query));
    if b.len() == 0 {
        assert(a + b =~= a);
        assert(x + y =~= x);
    } else {
        law_search_looks_at_every_server(config, a, b.drop_last(), server, tools, query);
        assert((a + b).drop_last() =~= a + b.drop_last());
        assert((a + b).last() == b.last());
        assert(search_hits(config, a + b, query) =~= x + y);
    }
}

/// Among the hits of a search stands every known tool that holds the query,
/// wherever in its name or its description the query stands.
pub proof fn law_search_misses_no_tool(
    config: Config,
    rows: Seq<(Seq<char>, Seq<ToolView>)>,
    query: Seq<char>,
    i: int,
    k: int,
) -> (h: int)
    requires
        0 <= i < rows.len(),
        0 <= k < rows[i].1.len(),
        holds_query(rows[i].1[k], query),
    ensures
        0 <= h < search_hits(config, rows, query).len(),
        tells_of(search_hits(config, rows, query)[h], config, rows[i].0, rows[i].1[k]),
{
    law_search_finds_exactly_the_matches(config, rows, query);
    let hits = search_hits(config, rows, query);
    assert(hits.contains(hit_for(config, rows[i].0, rows[i].1[k])));
    choose|h: int| 0 <= h < hits.len() && hits[h] == hit_for(config, rows[i].0, rows[i].1[k])
}

/// Every hit of a search tells of a known tool that holds the query.
pub proof fn law_search_makes_no_tool_up(
    config: Config,
    rows: Seq<(Seq<char>, Seq<ToolView>)>,
    query: Seq<char>,
    h: int,
) -> (place: (int, int))
    requires
        0 <= h < search_hits(config, rows, query).len(),
    ensures
        0 <= place.0 < rows.len(),
        0 <= place.1 < rows[place.0].1.len(),
        holds_query(rows[place.0].1[place.1], query),
        tells_of(
            search_hits(config, rows, query)[h],
            config,
            rows[place.0].0,
            rows[place.0].1[place.1],
        ),
{
    law_search_finds_exactly_the_matches(config, rows, query);
    let hit = search_hits(config, rows, query)[h];
    assert(has_source(config, rows, query, hit));
    let (i, k) = choose|i: int, k: int| stands_for(config, rows, query, hit, i, k);
    (i, k)
}

/// The servers that a search could not see are the configured ones whose tools
/// are not known, in order.
pub proof fn law_unseen_servers_are_named_in_order(
    a: Seq<(Seq<char>, ServerSpec)>,
    b: Seq<(Seq<char>, ServerSpec)>,
    server: (Seq<char>, ServerSpec),
    cache: Map<Seq<char>, Vec<ToolSchema>>,
)
    ensures
        not_indexed(a + b, cache) == not_indexed(a, cache) + not_indexed(b, cache),
        not_indexed(Seq::empty(), cache).len() == 0,
        cache.contains_key(server.0) ==> not_indexed(seq![server], cache).len() == 0,
        !cache.contains_key(server.0) ==> not_indexed(seq![server], cache) == seq![server.0],
    decreases b.len(),
{
    reveal_with_fuel(not_indexed, 2);
    let x = not_indexed(a, cache);
    let y = not_indexed(b, cache);
    assert(seq![server].drop_last() =~= Seq::empty());
    assert(not_indexed(seq![server].drop_last(), cache) == Seq::<Seq<char>>::empty());
    assert(!cache.contains_key(server.0) ==> not_indexed(seq![server], cache) =~= seq![server.0]);
    if b.len() == 0 {
        assert(a + b =~= a);
        assert(x + y =~= x);
    } else {
        law_unseen_servers_are_named_in_order(a, b.drop_last(), server, cache);
        assert((a + b).drop_last() =~= a + b.drop_last());
        assert((a + b).last() == b.last());
        assert(not_indexed(a + b, cache) =~= x + y);
    }
}

/// What a search looks through is just what the cache holds: each server under
/// its name, with what its tools say.
pub proof fn law_search_looks_through_the_cache(rows: Seq<(Seq<char>, Vec<ToolSchema>)>, i: int, k: int)
    requires
        0 <= i < rows.len(),
        0 <= k < rows[i].1@.len(),
    ensures
        known_rows(rows).len() == rows.len(),
        known_rows(rows)[i].0 == rows[i].0,
        known_rows(rows)[i].1.len() == rows[i].1@.len(),
        known_rows(rows)[i].1[k] == rows[i].1@[k]@,
{
}

/// The names in the meta-tools' answers differ.
proof fn lemma_answer_names_differ()
    ensures
        "name"@.len() == 4,
        "tool"@.len() == 4,
        "hits"@.len() == 4,
        "status"@.len() == 6,
        "server"@.len() == 6,
        "cached_tools"@.len() == 12,
        "identity"@.len() == 8,
        "setup_hint"@.len() == 10,
        "description"@.len() == 11,
        "not_indexed_yet"@.len() == 15,
        "tools"@.len() == 5,
        "dropped"@.len() == 7,
        "servers"@.len() == 7,
{
    reveal_strlit("name");
    reveal_strlit("tool");
    reveal_strlit("hits");
    reveal_strlit("status");
    reveal_strlit("server");
    reveal_strlit("cached_tools");
    reveal_strlit("identity");
    reveal_strlit("setup_hint");
    reveal_strlit("description");
    reveal_strlit("not_indexed_yet");
    reveal_strlit("tools");
    reveal_strlit("dropped");
    reveal_strlit("servers");
}

/// A server is listed with its name, whether it is running, how many of its
/// tools are known (null where it was never loaded), and the account and the
/// setup hint where it is configured with them.
pub proof fn law_server_is_listed_as_it_is(fleet: Fleet, name: Seq<char>, spec: ServerSpec)
    ensures
        ({
            let row = server_row(fleet, name, spec);
            &&& row is Object
            &&& row->Object_0.len() == 3 + one_if(spec.identity) + one_if(spec.setup_hint)
            &&& row.member("name"@) == Some(JsonView::Str(name))
            &&& fleet.children@.contains_key(name) ==> row.member("status"@) == Some(
                JsonView::Str("warm"@),
            )
            &&& !fleet.children@.contains_key(name) ==> row.member("status"@) == Some(
                JsonView::Str("cold"@),
            )
            &&& fleet.cache@.contains_key(name) ==> row.member("cached_tools"@) == Some(
                JsonView::UInt(fleet.cache@[name]@.len() as u64),
            )
            &&& !fleet.cache@.contains_key(name) ==> row.member("cached_tools"@) == Some(
                JsonView::Null,
            )
            &&& row.member("identity"@) == text_member(spec.identity)
            &&& row.member("setup_hint"@) == text_member(spec.setup_hint)
        }),
{
    lemma_answer_names_differ();
    law_empty_object_has_no_member();
    let status = JsonView::Str(
        if fleet.children@.contains_key(name) {
            "warm"@
        } else {
            "cold"@
        },
    );
    let count = if fleet.cache@.contains_key(name) {
        JsonView::UInt(fleet.cache@[name].len() as u64)
    } else {
        JsonView::Null
    };
    let a = JsonView::object();
    law_with_adds_one_member(a, "name"@, JsonView::Str(name));
    let b = a.with("name"@, JsonView::Str(name));
    law_with_adds_one_member(b, "status"@, status);
    let c = b.with("status"@, status);
    law_with_adds_one_member(c, "cached_tools"@, count);
    let d = c.with("cached_tools"@, count);
    law_with_text_adds_what_is_set(d, "identity"@, text_view(spec.identity));
    let e = d.with_text("identity"@, text_view(spec.identity));
    law_with_text_adds_what_is_set(e, "setup_hint"@, text_view(spec.setup_hint));
}

/// Every configured server is listed, in the order of the names, and nothing
/// else is.
pub proof fn law_every_server_is_listed(fleet: Fleet)
    ensures
        ({
            let reply = servers_reply(fleet);
            let rows = fleet.config.servers.rows();
            &&& reply is Object && reply->Object_0.len() == 1
            &&& reply.member("servers"@) matches Some(JsonView::Array(listed))
            &&& listed.len() == rows.len()
            &&& forall|i: int|
                0 <= i < rows.len() ==> (#[trigger] listed[i]) == server_row(
                    fleet,
                    rows[i].0,
                    rows[i].1,
                )
        }),
{
    law_empty_object_has_no_member();
    let rows = fleet.config.servers.rows();
    law_with_adds_one_member(
        JsonView::object(),
        "servers"@,
        JsonView::Array(Seq::new(rows.len(), |i: int| server_row(fleet, rows[i].0, rows[i].1))),
    );
}

/// A line of the list of servers says of a server what the fleet holds of it.
pub proof fn law_status_is_what_the_fleet_holds(
    s: ServerStatus,
    fleet: Fleet,
    name: Seq<char>,
    spec: ServerSpec,
)
    requires
        is_status(s, fleet, name, spec),
    ensures
        s.name@ == name,
        s.warm <==> fleet.children@.contains_key(name),
        fleet.cache@.contains_key(name) ==> s.cached_tools == Some(fleet.cache@[name].len()),
        !fleet.cache@.contains_key(name) ==> s.cached_tools is None,
        text_view(s.identity) == text_view(spec.identity),
        text_view(s.setup_hint) == text_view(spec.setup_hint),
{
}

/// A hit is answered with the server, the tool and the description, and with
/// the account where the server has one.
pub proof fn law_hit_is_answered_as_it_is(hit: HitView)
    ensures
        hit_row(hit) is Object,
        hit_row(hit)->Object_0.len() == 3 + one_if(hit.identity),
        hit_row(hit).member("server"@) == Some(JsonView::Str(hit.server)),
        hit_row(hit).member("tool"@) == Some(JsonView::Str(hit.tool)),
        hit_row(hit).member("description"@) == Some(JsonView::Str(hit.description)),
        hit.identity is Some ==> hit_row(hit).member("identity"@) == Some(
            JsonView::Str(hit.identity->0),
        ),
        hit.identity is None ==> hit_row(hit).member("identity"@) is None,
{
    lemma_answer_names_differ();
    law_empty_object_has_no_member();
    let a = JsonView::object();
    law_with_adds_one_member(a, "server"@, JsonView::Str(hit.server));
    let b = a.with("server"@, JsonView::Str(hit.server));
    law_with_adds_one_member(b, "tool"@, JsonView::Str(hit.tool));
    let c = b.with("tool"@, JsonView::Str(hit.tool));
    law_with_adds_one_member(c, "description"@, JsonView::Str(hit.description));
    let d = c.with("description"@, JsonView::Str(hit.description));
    law_with_text_adds_what_is_set(d, "identity"@, hit.identity);
}

/// A search is answered with all its hits, in order, and with the servers that
/// it could not see.
pub proof fn law_search_is_answered_with_its_hits(hits: Seq<HitView>, unseen: Seq<Seq<char>>)
    ensures
        ({
            let reply = search_reply(hits, unseen);
            &&& reply is Object && reply->Object_0.len() == 2
            &&& reply.member("hits"@) matches Some(JsonView::Array(rows))
            &&& rows.len() == hits.len()
            &&& forall|i: int| 0 <= i < hits.len() ==> (#[trigger] rows[i]) == hit_row(hits[i])
            &&& reply.member("not_indexed_yet"@) matches Some(JsonView::Array(names))
            &&& names.len() == unseen.len()
            &&& forall|i: int|
                0 <= i < unseen.len() ==> (#[trigger] names[i]) == JsonView::Str(unseen[i])
        }),
{
    lemma_answer_names_differ();
    law_empty_object_has_no_member();
    law_texts_stand_in_their_places(unseen);
    let rows = JsonView::Array(Seq::new(hits.len(), |i: int| hit_row(hits[i])));
    let a = JsonView::object();
    law_with_adds_one_member(a, "hits"@, rows);
    law_with_adds_one_member(a.with("hits"@, rows), "not_indexed_yet"@, texts_view(unseen));
}

/// A load is answered with the server and with everything that it says of each
/// of its tools, in order.
pub proof fn law_load_is_answered_with_the_schemas(name: Seq<char>, tools: Seq<ToolView>)
    ensures
        ({
            let reply = load_reply(name, tools);
            &&& reply is Object && reply->Object_0.len() == 2
            &&& reply.member("server"@) == Some(JsonView::Str(name))
            &&& reply.member("tools"@) matches Some(JsonView::Array(listed))
            &&& listed.len() == tools.len()
            &&& forall|i: int| 0 <= i < tools.len() ==> (#[trigger] listed[i]) == tools[i].json
        }),
{
    lemma_answer_names_differ();
    law_empty_object_has_no_member();
    let a = JsonView::object();
    law_with_adds_one_member(a, "server"@, JsonView::Str(name));
    law_with_adds_one_member(
        a.with("server"@, JsonView::Str(name)),
        "tools"@,
        JsonView::Array(Seq::new(tools.len(), |i: int| tools[i].json)),
    );
}

/// A drop is answered with the server and with whether it was running.
pub proof fn law_drop_is_answered_with_what_it_did(name: Seq<char>, running: bool)
    ensures
        drop_reply(name, running) is Object,
        drop_reply(name, running)->Object_0.len() == 2,
        drop_reply(name, running).member("server"@) == Some(JsonView::Str(name)),
        drop_reply(name, running).member("dropped"@) == Some(JsonView::Bool(running)),
{
    lemma_answer_names_differ();
    law_empty_object_has_no_member();
    let a = JsonView::object();
    law_with_adds_one_member(a, "server"@, JsonView::Str(name));
    law_with_adds_one_member(
        a.with("server"@, JsonView::Str(name)),
        "dropped"@,
        JsonView::Bool(running),
    );
}

/// Each meta-tool goes by its own name, and a name that is none of these is no
/// meta-tool's.
pub proof fn law_meta_tools_go_by_these_names(name: Seq<char>, t: MetaTool)
    ensures
        meta_tool_named(name) == Some(t) <==> name == (match t {
            MetaTool::ListServers => "list_servers"@,
            MetaTool::SearchTools => "search_tools"@,
            MetaTool::LoadServer => "load_server"@,
            MetaTool::CallTool => "call_tool"@,
            MetaTool::DropServer => "drop_server"@,
        }),
{
    law_offered_is_routed(name);
}

/// A load of load_server is a load of the fleet: the step is the fleet's, its
/// failure is the server's fault and says what the fleet says, and once the
/// server listed its tools, the answer holds just these.
pub proof fn law_load_server_loads<A, R>(
    before: Fleet,
    after: Fleet,
    name: Seq<char>,
    event: MetaEvent<R>,
    now: Moment,
    step: MetaStep<'_, A, R>,
)
    requires
        meta_load_goes(before, after, name, event, now, step),
    ensures
        ({
            let asked = match event {
                MetaEvent::Spawned(outcome) => LoadEvent::Spawned(outcome),
                MetaEvent::Listed { ticket, listed } => LoadEvent::Listed { ticket, listed },
                _ => LoadEvent::Begin,
            };
            match step {
                MetaStep::Spawn => load_goes(before, after, name, asked, now, LoadStep::Spawn),
                MetaStep::List { ticket } => load_goes(
                    before,
                    after,
                    name,
                    asked,
                    now,
                    LoadStep::List { ticket },
                ),
                MetaStep::Fail(e) => e.kind == ErrorKind::Internal && load_goes(
                    before,
                    after,
                    name,
                    asked,
                    now,
                    LoadStep::Failed(e.message),
                ),
                MetaStep::Loaded { reply, cache_file } => {
                    &&& load_goes(before, after, name, asked, now, LoadStep::Loaded)
                    &&& cache_file@ == cache_text(known_rows(after.cache.rows()))
                    &&& event matches MetaEvent::Listed { ticket, listed: Ok(tools) }
                    &&& reply@ == json_pretty(
                        load_reply(name, Seq::new(tools@.len(), |i: int| tools@[i]@)),
                    )
                },
                _ => false,
            }
        }),
{
    if let MetaEvent::Listed { ticket, listed: Ok(tools) } = event {
        assert(Seq::new(tools@.len(), |i: int| tools@[i]@) =~= tools_view(tools@));
    }
}

/// A step of call_tool is the fleet's: what it spawns, sends and relays is what
/// the fleet does, and its failure is the server's fault and says what the
/// fleet says.
pub proof fn law_call_tool_calls<'a, A, R>(step: MetaStep<'a, A, R>, event: MetaEvent<R>)
    requires
        step.is_calling(),
    ensures
        match step {
            MetaStep::Spawn => step.calling() is Spawn,
            MetaStep::Call { ticket, request } => step.calling() matches CallStep::Call {
                ticket: t,
                request: sent,
            } && t == ticket && sent == request,
            MetaStep::Relay(answer) => step.calling() matches CallStep::Relay(a) && a == answer,
            MetaStep::Fail(e) => e.kind == ErrorKind::Internal && (
            step.calling() matches CallStep::Failed(m) && m == e.message),
            _ => false,
        },
        event.to_call() == (match event {
            MetaEvent::Spawned(outcome) => CallEvent::Spawned(outcome),
            MetaEvent::Answered { ticket, answer } => CallEvent::Answered { ticket, answer },
            _ => CallEvent::<R>::Begin,
        }),
{
}

/// A fleet opens with its configuration, nothing running, and what the cache
/// file is read as; a file that is missing or cannot be read counts for
/// nothing.
pub proof fn law_fleet_opens_with_the_cache(
    config: Config,
    file: Option<Seq<char>>,
    fleet: Fleet,
)
    requires
        opened(config, file, fleet),
    ensures
        fleet.config == config,
        fleet.children@ == Map::<Seq<char>, Child>::empty(),
        fleet.spawns == 0,
        file is None ==> fleet.cache.rows().len() == 0,
        file is Some && cache_read(file->0) is None ==> fleet.cache.rows().len() == 0,
        file is Some && cache_read(file->0) is Some ==> known_rows(fleet.cache.rows())
            == cache_read(file->0)->0,
{
    assert(known_rows(fleet.cache.rows()).len() == fleet.cache.rows().len());
}

} // verus!
