//! What the operations of the fleet and of the meta-tools do, told by their
//! arguments and their results.

use crate::config::{Config, ConfigPath, ServerSpec};
use crate::fleet::{
    cache_path, exit_code, matches_query, report_line, search_hits, should_reap, Acquired,
    CachePath, CallEvent, CallStep, Child, Fleet, LoadEvent, LoadStep, Moment, ServerStatus, Span,
    SpawnFailure, ToolHit, ToolRequest, Warming,
};
use crate::fleet_laws::law_every_server_is_indexed_or_reported;
use crate::godaddy::server::Godaddy;
use crate::json::{json_pretty, Json, JsonView};
use crate::json_laws::{one_if, text_member};
use crate::mcp::{ErrorKind, ServerInfo, ToolDef, ToolError};
use crate::request_laws::{hint_at_the_end, is_limit};
use crate::schema_laws::{law_meta_tools_ask_for_their_arguments, offers};
use crate::search_laws::{
    holds_query, law_drop_is_answered_with_what_it_did, law_every_server_is_listed,
    law_hit_is_answered_as_it_is, law_load_is_answered_with_the_schemas,
    law_meta_tools_go_by_these_names, law_search_is_answered_with_its_hits,
    law_search_makes_no_tool_up, law_search_misses_no_tool, law_server_is_listed_as_it_is, tells_of,
};
use crate::server::{Dangler, MetaCall, MetaEvent, MetaStep, MetaTool};
use crate::table::{keyed_at, lemma_keyed_once};
use crate::text::{ascii_small, decimal, has, is_plain, text_view, views};
use crate::tool::{cache_read, cache_text, fits, ToolSchema, ToolView};
use crate::ytdl::server::Ytdl;
use vstd::prelude::*;
use vstd::string::*;

verus! {

/// The configuration is read from the path that is given, and else from
/// `dangler.toml`.
pub proof fn law_configuration_is_found<P>(given: Option<P>, r: ConfigPath<P>)
    requires
        call_ensures(Config::default_path::<P>, (given,), r),
    ensures
        given matches Some(p) ==> r == ConfigPath::Given(p),
        given is None ==> (r matches ConfigPath::File(f) && f@ == "dangler.toml"@),
{
}

/// The cache is kept at the path that is given, and else as
/// `.dangler/cache.json` under the profile, and where there is none, under the
/// home.
pub proof fn law_cache_is_found<P>(
    given: Option<P>,
    profile: Option<P>,
    home: Option<P>,
    r: CachePath<P>,
)
    requires
        call_ensures(cache_path::<P>, (given, profile, home), r),
    ensures
        given matches Some(p) ==> r == CachePath::Given(p),
        given is None ==> {
            &&& r matches CachePath::Under { home: under, dir, file }
            &&& dir@ == ".dangler"@ && file@ == "cache.json"@
            &&& profile is Some ==> under == profile
            &&& profile is None ==> under == home
        },
{
}

/// Times are told in nanoseconds: a second is a thousand million of them, and
/// the time since a moment that is yet to come is none.
pub proof fn law_times(secs: u64, span: Span, now: Moment, then: Moment, since: Span)
    requires
        call_ensures(Span::from_secs, (secs,), span),
        call_ensures(Moment::duration_since, (now, then), since),
    ensures
        span.nanos == secs * 1_000_000_000,
        now.nanos >= then.nanos ==> since.nanos == now.nanos - then.nanos,
        now.nanos < then.nanos ==> since.nanos == 0,
{
}

/// A child is reaped exactly where there is a limit, nothing uses it, and it
/// was idle for the limit or longer.
pub proof fn law_reap_decision(inflight: u32, idle_for: Span, timeout: Option<Span>, r: bool)
    requires
        call_ensures(should_reap, (inflight, idle_for, timeout), r),
    ensures
        timeout is None ==> !r,
        inflight > 0 ==> !r,
        timeout is Some && inflight == 0 ==> (r <==> idle_for.nanos >= timeout->0.nanos),
{
}

/// A tool answers a query that stands anywhere in its name or its description.
pub proof fn law_query_decision(query: &str, name: &str, description: &str, r: bool)
    requires
        call_ensures(matches_query, (query, name, description), r),
    ensures
        r <==> has(name@, query@) || has(description@, query@),
{
}

/// The idle timeout of a server is its own where it has one, whatever the
/// global one is, else the global one, else ten minutes; zero is none.
pub proof fn law_idle_timeout(fleet: &Fleet, name: &str, secs: u64, r: Option<Span>)
    requires
        call_ensures(Fleet::idle_timeout, (fleet, name), r),
        is_limit(fleet.config, name@, secs),
    ensures
        secs > 0 ==> (r matches Some(limit) && limit.nanos == secs * 1_000_000_000),
        secs == 0 ==> r is None,
{
}

/// A server is launched as it is configured, and one that is not configured is
/// an error that names it.
pub proof fn law_spec_is_the_configured_one(
    fleet: &Fleet,
    name: &str,
    r: Result<&ServerSpec, String>,
)
    requires
        call_ensures(Fleet::spec, (fleet, name), r),
    ensures
        fleet.config.servers@.contains_key(name@) ==> (r matches Ok(spec) && *spec
            == fleet.config.servers@[name@]),
        !fleet.config.servers@.contains_key(name@) ==> (r matches Err(e) && e@ == "no server '"@
            + name@ + "' in config"@),
{
}

/// The list of servers has a line for each configured server, in the order of
/// the names, which says what the fleet holds of it.
pub proof fn law_statuses(fleet: &Fleet, r: Vec<ServerStatus>, i: int)
    requires
        call_ensures(Fleet::statuses, (fleet,), r),
        0 <= i < fleet.config.servers.rows().len(),
    ensures
        r@.len() == fleet.config.servers.rows().len(),
        ({
            let name = fleet.config.servers.rows()[i].0;
            let spec = fleet.config.servers.rows()[i].1;
            &&& r@[i].name@ == name
            &&& r@[i].warm <==> fleet.children@.contains_key(name)
            &&& fleet.cache@.contains_key(name) ==> r@[i].cached_tools == Some(
                fleet.cache@[name].len(),
            )
            &&& !fleet.cache@.contains_key(name) ==> r@[i].cached_tools is None
            &&& text_view(r@[i].identity) == text_view(spec.identity)
            &&& text_view(r@[i].setup_hint) == text_view(spec.setup_hint)
        }),
{
    assert(crate::fleet::is_status(
        r@[i],
        *fleet,
        fleet.config.servers.rows()[i].0,
        fleet.config.servers.rows()[i].1,
    ));
}

/// A request that claims a warm server gets the ticket of its child, which
/// counts one request more from then on; no other server is touched, and a cold
/// server is left to be spawned.
pub proof fn law_acquire(
    fleet: &mut Fleet,
    name: &str,
    now: Moment,
    other: Seq<char>,
    r: Result<Acquired, String>,
)
    requires
        call_ensures(Fleet::acquire, (fleet, name, now), r),
        old(fleet).children@.contains_key(name@) ==> old(fleet).children@[name@].inflight
            < u32::MAX,
        other != name@,
    ensures
        final(fleet).config == old(fleet).config,
        final(fleet).cache == old(fleet).cache,
        final(fleet).spawns == old(fleet).spawns,
        final(fleet).children@.contains_key(other) <==> old(fleet).children@.contains_key(other),
        old(fleet).children@.contains_key(other) ==> final(fleet).children@[other]
            == old(fleet).children@[other],
        !old(fleet).config.servers@.contains_key(name@) ==> {
            &&& r matches Err(e) && e@ == "no server '"@ + name@ + "' in config"@
            &&& final(fleet).children@ == old(fleet).children@
        },
        old(fleet).config.servers@.contains_key(name@) && !old(fleet).children@.contains_key(name@)
            ==> {
            &&& r matches Ok(Acquired::Cold)
            &&& final(fleet).children@ == old(fleet).children@
        },
        old(fleet).config.servers@.contains_key(name@) && old(fleet).children@.contains_key(name@)
            ==> {
            let was = old(fleet).children@[name@];
            &&& r matches Ok(Acquired::Warm(ticket)) && ticket == was.generation
            &&& final(fleet).children@.contains_key(name@)
            &&& final(fleet).children@[name@].inflight == was.inflight + 1
            &&& final(fleet).children@[name@].last_used == now
            &&& final(fleet).children@[name@].generation == was.generation
        },
{
}

/// A server that came up is in use by the request that had it spawned, under a
/// ticket of its own, which is the next one; one that did not is an error with
/// the cause and the hint, and changes nothing.
pub proof fn law_spawned(
    fleet: &mut Fleet,
    name: &str,
    outcome: Result<(), SpawnFailure>,
    now: Moment,
    other: Seq<char>,
    r: Result<u64, String>,
)
    requires
        call_ensures(Fleet::spawned, (fleet, name, outcome, now), r),
        other != name@,
    ensures
        final(fleet).config == old(fleet).config,
        final(fleet).cache == old(fleet).cache,
        final(fleet).children@.contains_key(other) <==> old(fleet).children@.contains_key(other),
        old(fleet).children@.contains_key(other) ==> final(fleet).children@[other]
            == old(fleet).children@[other],
        outcome is Ok ==> {
            &&& r matches Ok(ticket) && ticket == old(fleet).spawns
            &&& final(fleet).spawns == old(fleet).spawns + 1
            &&& final(fleet).children@.contains_key(name@)
            &&& final(fleet).children@[name@].inflight == 1
            &&& final(fleet).children@[name@].last_used == now
            &&& final(fleet).children@[name@].generation == old(fleet).spawns
        },
        outcome matches Err(f) ==> {
            let spec = old(fleet).config.servers@[name@];
            &&& final(fleet).spawns == old(fleet).spawns
            &&& final(fleet).children@ == old(fleet).children@
            &&& r matches Err(e)
            &&& f matches SpawnFailure::Spawn(cause) ==> e@ == "spawning '"@ + name@ + "' ("@
                + spec.command@ + "): "@ + cause@ + hint_at_the_end(spec.setup_hint)
            &&& f matches SpawnFailure::Handshake(cause) ==> e@ == "MCP handshake with '"@ + name@
                + "': "@ + cause@ + hint_at_the_end(spec.setup_hint)
        },
{
}

/// A request that gives back a server takes itself from the count of the child
/// that its ticket is for, which is idle from then on; a child of another
/// generation and every other server are left alone.
pub proof fn law_release(
    fleet: &mut Fleet,
    name: &str,
    ticket: u64,
    now: Moment,
    other: Seq<char>,
    r: (),
)
    requires
        call_ensures(Fleet::release, (fleet, name, ticket, now), r),
        other != name@,
    ensures
        final(fleet).config == old(fleet).config,
        final(fleet).cache == old(fleet).cache,
        final(fleet).spawns == old(fleet).spawns,
        final(fleet).children@.contains_key(other) <==> old(fleet).children@.contains_key(other),
        old(fleet).children@.contains_key(other) ==> final(fleet).children@[other]
            == old(fleet).children@[other],
        !old(fleet).children@.contains_key(name@) ==> !final(fleet).children@.contains_key(name@),
        old(fleet).children@.contains_key(name@) ==> {
            let was = old(fleet).children@[name@];
            &&& final(fleet).children@.contains_key(name@)
            &&& was.generation != ticket ==> final(fleet).children@[name@] == was
            &&& was.generation == ticket ==> {
                &&& final(fleet).children@[name@].last_used == now
                &&& final(fleet).children@[name@].generation == ticket
                &&& was.inflight > 0 ==> final(fleet).children@[name@].inflight == was.inflight - 1
                &&& was.inflight == 0 ==> final(fleet).children@[name@].inflight == 0
            }
        },
{
}

/// A server that is dropped is cold, whatever used it, and the others stay as
/// they are; whether it was running is said.
pub proof fn law_drop_server(fleet: &mut Fleet, name: &str, other: Seq<char>, r: bool)
    requires
        call_ensures(Fleet::drop_server, (fleet, name), r),
        other != name@,
    ensures
        final(fleet).config == old(fleet).config,
        final(fleet).cache == old(fleet).cache,
        final(fleet).spawns == old(fleet).spawns,
        r <==> old(fleet).children@.contains_key(name@),
        !final(fleet).children@.contains_key(name@),
        final(fleet).children@.contains_key(other) <==> old(fleet).children@.contains_key(other),
        old(fleet).children@.contains_key(other) ==> final(fleet).children@[other]
            == old(fleet).children@[other],
{
}

/// A reap pass takes just the servers whose limit is not zero, that no request
/// uses, and that went unused for at least their limit; the others stay as they
/// are, and so does what is known of them all.
pub proof fn law_reap_pass(
    fleet: &mut Fleet,
    now: Moment,
    name: Seq<char>,
    secs: u64,
    r: Vec<String>,
)
    requires
        call_ensures(Fleet::reap_idle, (fleet, now), r),
        old(fleet).children.valid(),
        is_limit(old(fleet).config, name, secs),
        old(fleet).children@.contains_key(name),
    ensures
        final(fleet).config == old(fleet).config,
        final(fleet).cache == old(fleet).cache,
        final(fleet).spawns == old(fleet).spawns,
        ({
            let child = old(fleet).children@[name];
            let idle = secs > 0 && child.inflight == 0 && now.nanos - child.last_used.nanos >= secs
                * 1_000_000_000;
            &&& views(r@).contains(name) <==> idle
            &&& final(fleet).children@.contains_key(name) <==> !idle
            &&& !idle ==> final(fleet).children@[name] == child
        }),
{
    crate::request_laws::law_reaped_names_are_those_taken(
        old(fleet).config,
        old(fleet).children.rows(),
        name,
        secs,
        now,
    );
}

/// What is indexed for a server is just what is given, and nothing else changes
/// in the cache.
pub proof fn law_index(
    fleet: &mut Fleet,
    name: &str,
    tools: Vec<ToolSchema>,
    other: Seq<char>,
    r: (),
)
    requires
        call_ensures(Fleet::index, (fleet, name, tools), r),
        other != name@,
    ensures
        final(fleet).config == old(fleet).config,
        final(fleet).children == old(fleet).children,
        final(fleet).spawns == old(fleet).spawns,
        final(fleet).cache@.contains_key(name@),
        final(fleet).cache@[name@] == tools,
        final(fleet).cache@.contains_key(other) <==> old(fleet).cache@.contains_key(other),
        old(fleet).cache@.contains_key(other) ==> final(fleet).cache@[other]
            == old(fleet).cache@[other],
{
}

/// The cache holds `tool` among the tools of `server`.
pub open spec fn knows(fleet: Fleet, server: Seq<char>, tool: ToolView) -> bool {
    fleet.cache@.contains_key(server) && exists|k: int|
        0 <= k < fleet.cache@[server]@.len() && (#[trigger] fleet.cache@[server]@[k])@ == tool
}

/// A search finds every known tool that holds the query, wherever in its name
/// or its whole description that stands and in whatever case.
pub proof fn law_search_finds(
    fleet: &Fleet,
    query: &str,
    server: Seq<char>,
    tool: ToolView,
    r: Vec<ToolHit>,
) -> (h: int)
    requires
        call_ensures(Fleet::search, (fleet, query), r),
        fleet.cache.valid(),
        knows(*fleet, server, tool),
        holds_query(tool, query@),
    ensures
        0 <= h < r@.len(),
        tells_of(r@[h]@, fleet.config, server, tool),
{
    let rows = fleet.cache.rows();
    let known = crate::fleet::known_rows(rows);
    let i = choose|i: int| keyed_at(rows, server, i);
    assert(keyed_at(rows, server, i));
    lemma_keyed_once(rows, i);
    let k = choose|k: int|
        0 <= k < fleet.cache@[server]@.len() && (#[trigger] fleet.cache@[server]@[k])@ == tool;
    assert(known[i].1[k] == tool);
    let h = law_search_misses_no_tool(fleet.config, known, query@, i, k);
    assert(crate::fleet::hits_view(r@)[h] == r@[h]@);
    h
}

/// Every hit of a search tells of a known tool that holds the query.
pub proof fn law_search_finds_nothing_else(
    fleet: &Fleet,
    query: &str,
    r: Vec<ToolHit>,
    h: int,
) -> (source: (Seq<char>, ToolView))
    requires
        call_ensures(Fleet::search, (fleet, query), r),
        fleet.cache.valid(),
        0 <= h < r@.len(),
    ensures
        knows(*fleet, source.0, source.1),
        holds_query(source.1, query@),
        tells_of(r@[h]@, fleet.config, source.0, source.1),
{
    let rows = fleet.cache.rows();
    let known = crate::fleet::known_rows(rows);
    assert(crate::fleet::hits_view(r@)[h] == r@[h]@);
    let (i, k) = law_search_makes_no_tool_up(fleet.config, known, query@, h);
    lemma_keyed_once(rows, i);
    assert(keyed_at(rows, rows[i].0, i));
    assert(fleet.cache@[rows[i].0]@[k]@ == known[i].1[k]);
    (rows[i].0, known[i].1[k])
}

/// The servers that a search could not see are just the configured ones that
/// the cache holds nothing of.
pub proof fn law_unindexed(fleet: &Fleet, name: Seq<char>, r: Vec<String>)
    requires
        call_ensures(Fleet::unindexed, (fleet,), r),
        fleet.config.servers.valid(),
    ensures
        views(r@).contains(name) <==> fleet.config.servers@.contains_key(name)
            && !fleet.cache@.contains_key(name),
{
    let rows = fleet.config.servers.rows();
    law_every_server_is_indexed_or_reported(rows, fleet.cache@, name);
    let names = crate::fleet::names_of(rows);
    if fleet.config.servers@.contains_key(name) {
        let i = choose|i: int| keyed_at(rows, name, i);
        assert(keyed_at(rows, name, i));
        assert(names[i] == name);
    }
    if names.contains(name) {
        let i = choose|i: int| 0 <= i < names.len() && names[i] == name;
        assert(keyed_at(rows, name, i));
    }
}

/// How many requests use a server is what its child counts, and none where it
/// is cold.
pub proof fn law_inflight(fleet: &Fleet, name: &str, r: u32)
    requires
        call_ensures(Fleet::inflight, (fleet, name), r),
    ensures
        fleet.children@.contains_key(name@) ==> r == fleet.children@[name@].inflight,
        !fleet.children@.contains_key(name@) ==> r == 0,
{
}

/// The pre-loader says of each server how many tools were cached, or why none
/// were.
pub proof fn law_report(name: &str, outcome: &Result<usize, String>, r: String)
    requires
        call_ensures(report_line, (name, outcome), r),
    ensures
        outcome matches Ok(n) ==> r@ == "  "@ + name@ + ": "@ + decimal(*n as nat)
            + " tools cached"@,
        outcome matches Err(e) ==> r@ == "  "@ + name@ + ": FAILED — "@ + e@,
{
}

/// The pre-loader's exit code is 1 where any load failed, and 0 where all
/// succeeded.
pub proof fn law_exit_code(results: &Vec<(String, Result<usize, String>)>, i: int, r: i32)
    requires
        call_ensures(exit_code, (results,), r),
    ensures
        0 <= i < results@.len() && results@[i].1 is Err ==> r == 1,
        (forall|k: int| 0 <= k < results@.len() ==> (#[trigger] results@[k]).1 is Ok) ==> r == 0,
{
}

/// What a load came to is told by its last step: how many tools the cache holds
/// of the server, or the error.
pub proof fn law_load_outcome(
    fleet: &Fleet,
    name: &str,
    last: LoadStep,
    r: Result<usize, String>,
)
    requires
        call_ensures(Fleet::load_outcome, (fleet, name, last), r),
        last is Loaded || last is Failed,
    ensures
        last matches LoadStep::Failed(e) ==> (r matches Err(x) && x@ == e@),
        last is Loaded ==> (r matches Ok(n) && n == fleet.cache@[name@].len()),
{
}

/// A request for a meta-tool is routed by its name alone, and a name that no
/// meta-tool has is the caller's fault.
pub proof fn law_meta_route(name: &str, t: MetaTool, r: Result<MetaTool, ToolError>)
    requires
        call_ensures(Dangler::route, (name,), r),
    ensures
        name@ == (match t {
            MetaTool::ListServers => "list_servers"@,
            MetaTool::SearchTools => "search_tools"@,
            MetaTool::LoadServer => "load_server"@,
            MetaTool::CallTool => "call_tool"@,
            MetaTool::DropServer => "drop_server"@,
        }) ==> (r matches Ok(x) && x == t),
        r matches Err(e) ==> e.kind == ErrorKind::InvalidParams && e.message@ == "unknown tool '"@
            + name@ + "'"@,
        r == Ok::<MetaTool, ToolError>(t) ==> name@ == (match t {
            MetaTool::ListServers => "list_servers"@,
            MetaTool::SearchTools => "search_tools"@,
            MetaTool::LoadServer => "load_server"@,
            MetaTool::CallTool => "call_tool"@,
            MetaTool::DropServer => "drop_server"@,
        }),
{
    law_meta_tools_go_by_these_names(name@, t);
}

/// list_servers answers with a row for each configured server: its name,
/// whether it runs, how many of its tools are known, and the account and the
/// setup hint where it has them.
pub proof fn law_list_servers(dangler: &Dangler, r: Json, i: int)
    requires
        call_ensures(Dangler::list_servers, (dangler,), r),
        0 <= i < dangler.fleet.config.servers.rows().len(),
    ensures
        r@.member("servers"@) matches Some(JsonView::Array(listed)) && listed.len()
            == dangler.fleet.config.servers.rows().len() && {
            let name = dangler.fleet.config.servers.rows()[i].0;
            let spec = dangler.fleet.config.servers.rows()[i].1;
            let row = listed[i];
            &&& row is Object
            &&& row->Object_0.len() == 3 + one_if(spec.identity) + one_if(spec.setup_hint)
            &&& row.member("name"@) == Some(JsonView::Str(name))
            &&& row.member("status"@) == Some(
                JsonView::Str(
                    if dangler.fleet.children@.contains_key(name) {
                        "warm"@
                    } else {
                        "cold"@
                    },
                ),
            )
            &&& dangler.fleet.cache@.contains_key(name) ==> row.member("cached_tools"@) == Some(
                JsonView::UInt(dangler.fleet.cache@[name]@.len() as u64),
            )
            &&& !dangler.fleet.cache@.contains_key(name) ==> row.member("cached_tools"@) == Some(
                JsonView::Null,
            )
            &&& row.member("identity"@) == text_member(spec.identity)
            &&& row.member("setup_hint"@) == text_member(spec.setup_hint)
        },
{
    law_every_server_is_listed(dangler.fleet);
    law_server_is_listed_as_it_is(
        dangler.fleet,
        dangler.fleet.config.servers.rows()[i].0,
        dangler.fleet.config.servers.rows()[i].1,
    );
}

/// search_tools answers with a row for each hit, with the server, the tool, the
/// description and the account of the hit.
pub proof fn law_search_tools(dangler: &Dangler, query: &str, found: Vec<ToolHit>, r: Json, i: int)
    requires
        call_ensures(Dangler::search_tools, (dangler, query), r),
        call_ensures(Fleet::search, (&dangler.fleet, query), found),
        0 <= i < found@.len(),
    ensures
        r@.member("hits"@) matches Some(JsonView::Array(rows)) && rows.len() == found@.len() && {
            &&& rows[i].member("server"@) == Some(JsonView::Str(found@[i].server@))
            &&& rows[i].member("tool"@) == Some(JsonView::Str(found@[i].tool@))
            &&& rows[i].member("description"@) == Some(JsonView::Str(found@[i].description@))
            &&& rows[i].member("identity"@) == text_member(found@[i].identity)
        },
{
    let hits = crate::fleet::hits_view(found@);
    assert(hits[i] == found@[i]@);
    law_search_is_answered_with_its_hits(
        hits,
        crate::fleet::not_indexed(
            dangler.fleet.config.servers.rows(),
            dangler.fleet.cache@,
        ),
    );
    law_hit_is_answered_as_it_is(hits[i]);
}

/// search_tools names the servers that it could not see.
pub proof fn law_search_tools_names_the_unseen(
    dangler: &Dangler,
    query: &str,
    unseen: Vec<String>,
    r: Json,
)
    requires
        call_ensures(Dangler::search_tools, (dangler, query), r),
        call_ensures(Fleet::unindexed, (&dangler.fleet,), unseen),
    ensures
        r@.member("not_indexed_yet"@) matches Some(JsonView::Array(names)) && names.len()
            == unseen@.len() && forall|i: int|
            0 <= i < names.len() ==> (#[trigger] names[i]) == JsonView::Str(unseen@[i]@),
{
    let hits = search_hits(
        dangler.fleet.config,
        crate::fleet::known_rows(dangler.fleet.cache.rows()),
        query@,
    );
    law_search_is_answered_with_its_hits(hits, views(unseen@));
}

/// The meta-tools on offer are these five, with these arguments.
pub proof fn law_meta_tools(r: Vec<ToolDef>)
    requires
        call_ensures(Dangler::meta_tools, (), r),
    ensures
        r@.len() == 5,
        offers(r@[0]@, "list_servers"@, seq![], seq![]),
        offers(r@[1]@, "search_tools"@, seq![("query"@, Some("string"@))], seq!["query"@]),
        offers(r@[2]@, "load_server"@, seq![("name"@, Some("string"@))], seq!["name"@]),
        offers(
            r@[3]@,
            "call_tool"@,
            seq![
                ("server"@, Some("string"@)),
                ("tool"@, Some("string"@)),
                ("arguments"@, Some("object"@)),
            ],
            seq!["server"@, "tool"@],
        ),
        offers(r@[4]@, "drop_server"@, seq![("name"@, Some("string"@))], seq!["name"@]),
{
    law_meta_tools_ask_for_their_arguments();
    let all = crate::mcp::defs_view(r@);
    assert(all[0] == r@[0]@ && all[1] == r@[1]@ && all[2] == r@[2]@ && all[3] == r@[3]@ && all[4]
        == r@[4]@);
}

/// A call of drop_server makes the server cold, leaves everything else as it
/// is, and answers whether it was running.
pub proof fn law_drop_server_call<'a, A, R>(
    dangler: &mut Dangler,
    call: &'a MetaCall<A>,
    name: String,
    event: MetaEvent<R>,
    now: Moment,
    r: MetaStep<'a, A, R>,
)
    requires
        call_ensures(Dangler::call_tool::<A, R>, (dangler, call, event, now), r),
        *call == (MetaCall::<A>::DropServer { name }),
    ensures
        ({
            let was = old(dangler).fleet.children@.contains_key(name@);
            &&& final(dangler).fleet.config == old(dangler).fleet.config
            &&& final(dangler).fleet.cache == old(dangler).fleet.cache
            &&& final(dangler).fleet.children@ == old(dangler).fleet.children@.remove(name@)
            &&& r matches MetaStep::Dropped { reply, running }
            &&& running == was
            &&& exists|j: JsonView| #[trigger]
                json_pretty(j) == reply@ && j is Object && j->Object_0.len() == 2 && j.member(
                    "server"@,
                ) == Some(JsonView::Str(name@)) && j.member("dropped"@) == Some(JsonView::Bool(was))
        }),
{
    let was = old(dangler).fleet.children@.contains_key(name@);
    law_drop_is_answered_with_what_it_did(name@, was);
    assert(json_pretty(crate::server::drop_reply(name@, was)) == r->Dropped_reply@);
}

/// A call of list_servers or search_tools changes nothing, and answers with
/// what the operation of that name says.
pub proof fn law_reading_calls<'a, A, R>(
    dangler: &mut Dangler,
    call: &'a MetaCall<A>,
    event: MetaEvent<R>,
    now: Moment,
    r: MetaStep<'a, A, R>,
    listed: Json,
    query: String,
    asked: &str,
    found: Json,
)
    requires
        call_ensures(Dangler::call_tool::<A, R>, (dangler, call, event, now), r),
        call_ensures(Dangler::list_servers, (&*old(dangler),), listed),
        asked@ == query@,
        call_ensures(Dangler::search_tools, (&*old(dangler), asked), found),
    ensures
        *call is ListServers ==> {
            &&& final(dangler).fleet == old(dangler).fleet
            &&& r matches MetaStep::Reply(t) && t@ == json_pretty(listed@)
        },
        *call == (MetaCall::<A>::SearchTools { query }) ==> {
            &&& final(dangler).fleet == old(dangler).fleet
            &&& r matches MetaStep::Reply(t) && t@ == json_pretty(found@)
        },
{
}

/// A call of call_tool sends the downstream server just what the caller asked
/// for, and answers with just what came back.
pub proof fn law_call_tool_relays<'a, A, R>(
    dangler: &mut Dangler,
    call: &'a MetaCall<A>,
    server: String,
    request: ToolRequest<A>,
    event: MetaEvent<R>,
    now: Moment,
    r: MetaStep<'a, A, R>,
)
    requires
        call_ensures(Dangler::call_tool::<A, R>, (dangler, call, event, now), r),
        *call == (MetaCall::<A>::CallTool { server, request }),
    ensures
        r matches MetaStep::Call { ticket, request: sent } ==> *sent == request,
        event matches MetaEvent::Answered { ticket, answer: Ok(a) } ==> (
        r matches MetaStep::Relay(x) && x == a),
        event matches MetaEvent::Answered { ticket, answer: Err(cause) } ==> (
        r matches MetaStep::Fail(e) && e.kind == ErrorKind::Internal && e.message@ == "calling "@
            + server@ + "/"@ + request.tool@ + ": "@ + cause@),
        event is Begin && !old(dangler).fleet.config.servers@.contains_key(server@) ==> (
        r matches MetaStep::Fail(e) && e.kind == ErrorKind::Internal && e.message@ == "no server '"@
            + server@ + "' in config"@),
        event is Begin && old(dangler).fleet.config.servers@.contains_key(server@) && !old(
            dangler,
        ).fleet.children@.contains_key(server@) ==> r is Spawn,
        event is Begin && old(dangler).fleet.config.servers@.contains_key(server@) && old(
            dangler,
        ).fleet.children@.contains_key(server@) ==> (r matches MetaStep::Call {
            ticket,
            request: sent,
        } && ticket == old(dangler).fleet.children@[server@].generation),
        final(dangler).fleet.cache == old(dangler).fleet.cache,
        final(dangler).fleet.config == old(dangler).fleet.config,
{
}

/// A fleet opens with the configuration that it is given, nothing running, and
/// the tools that the cache file is read as; a file that is missing or cannot be
/// read counts for nothing.
pub proof fn law_new(config: Config, file: Option<&str>, r: Fleet)
    requires
        call_ensures(Fleet::new, (config, file), r),
    ensures
        r.config == config,
        r.children@ == Map::<Seq<char>, Child>::empty(),
        r.spawns == 0,
        file is None ==> r.cache.rows().len() == 0,
        file matches Some(text) ==> match cache_read(text@) {
            Some(rows) => crate::fleet::known_rows(r.cache.rows()) == rows,
            None => r.cache.rows().len() == 0,
        },
{
    assert(crate::fleet::known_rows(r.cache.rows()).len() == r.cache.rows().len());
}

/// What is written for the cache is read back as the same tools of the same
/// servers, as long as no document is nested deeper than 125 levels.
pub proof fn law_cache_file_is_read_back(fleet: &Fleet, r: String)
    requires
        call_ensures(Fleet::persist_cache, (fleet,), r),
        forall|i: int, k: int|
            0 <= i < fleet.cache.rows().len() && 0 <= k < fleet.cache.rows()[i].1@.len() ==> fits(
                (#[trigger] fleet.cache.rows()[i].1@[k])@.json,
                125,
            ),
    ensures
        cache_read(r@) matches Some(rows) && rows.len() == fleet.cache.rows().len() && forall|
            i: int,
        |
            0 <= i < rows.len() ==> {
                &&& (#[trigger] rows[i]).0 == fleet.cache.rows()[i].0
                &&& rows[i].1.len() == fleet.cache.rows()[i].1@.len()
                &&& forall|k: int|
                    0 <= k < rows[i].1.len() ==> (#[trigger] rows[i].1[k])
                        == fleet.cache.rows()[i].1@[k]@
            },
{
    let known = crate::fleet::known_rows(fleet.cache.rows());
    assert(crate::tool::all_shallow(known)) by {
        assert forall|i: int, k: int|
            0 <= i < known.len() && 0 <= k < known[i].1.len() implies fits(
            (#[trigger] known[i].1[k]).json,
            125,
        ) by {
            assert(known[i].1[k] == fleet.cache.rows()[i].1@[k]@);
        }
    }
}

/// Whether the cache file can be read back is told by the depth of its
/// documents.
pub proof fn law_cache_is_shallow(fleet: &Fleet, i: int, k: int, r: bool)
    requires
        call_ensures(Fleet::cache_is_shallow, (fleet,), r),
        0 <= i < fleet.cache.rows().len(),
        0 <= k < fleet.cache.rows()[i].1@.len(),
    ensures
        r ==> fits(fleet.cache.rows()[i].1@[k]@.json, 125),
        (forall|a: int, b: int|
            0 <= a < fleet.cache.rows().len() && 0 <= b < fleet.cache.rows()[a].1@.len() ==> fits(
                (#[trigger] fleet.cache.rows()[a].1@[b])@.json,
                125,
            )) ==> r,
{
    let rows = fleet.cache.rows();
    let known = crate::fleet::known_rows(rows);
    assert(known[i].1[k] == rows[i].1@[k]@);
    if forall|a: int, b: int|
        0 <= a < rows.len() && 0 <= b < rows[a].1@.len() ==> fits(
            (#[trigger] rows[a].1@[b])@.json,
            125,
        ) {
        assert forall|a: int, b: int| 0 <= a < known.len() && 0 <= b < known[a].1.len() implies fits(
            (#[trigger] known[a].1[b]).json,
            125,
        ) by {
            assert(known[a].1[b] == rows[a].1@[b]@);
        }
    }
}

/// A document fits in a depth where every object and array in it does in the
/// depth that is left: plain values fit in any, and what holds others needs one
/// level for itself.
pub proof fn law_depth_counts_levels(
    j: JsonView,
    items: Seq<JsonView>,
    members: Seq<(Seq<char>, JsonView)>,
    depth: nat,
)
    ensures
        !(j is Array) && !(j is Object) ==> fits(j, depth),
        !fits(JsonView::Array(items), 0),
        !fits(JsonView::Object(members), 0),
        fits(JsonView::Array(items), depth + 1) <==> forall|i: int|
            0 <= i < items.len() ==> fits(#[trigger] items[i], depth),
        fits(JsonView::Object(members), depth + 1) <==> forall|i: int|
            0 <= i < members.len() ==> fits((#[trigger] members[i]).1, depth),
{
    let a = JsonView::Array(items);
    assert(a->Array_0 == items);
    assert(fits(a, depth + 1) == (forall|k: int|
        0 <= k < items.len() ==> fits(#[trigger] items[k], depth)));
    let o = JsonView::Object(members);
    assert(o->Object_0 == members);
    assert(fits(o, depth + 1) == (forall|k: int|
        0 <= k < members.len() ==> fits((#[trigger] members[k]).1, depth)));
}

/// A load takes the steps of a load.
pub proof fn law_load(
    fleet: &mut Fleet,
    name: &str,
    event: LoadEvent,
    now: Moment,
    r: LoadStep,
)
    requires
        call_ensures(Fleet::load, (fleet, name, event, now), r),
    ensures
        crate::fleet::load_goes(*old(fleet), *final(fleet), name@, event, now, r),
        event matches LoadEvent::Listed { ticket, listed: Ok(tools) } ==> r is Loaded
            && final(fleet).cache@.contains_key(name@) && final(fleet).cache@[name@] == tools,
        !(event is Listed) ==> final(fleet).cache == old(fleet).cache,
{
}

/// A call takes the steps of a call.
pub proof fn law_call<'a, A, R>(
    fleet: &mut Fleet,
    server: &str,
    request: &'a ToolRequest<A>,
    event: CallEvent<R>,
    now: Moment,
    r: CallStep<'a, A, R>,
)
    requires
        call_ensures(Fleet::call::<A, R>, (fleet, server, request, event, now), r),
    ensures
        crate::fleet::call_goes(
            *old(fleet),
            *final(fleet),
            server@,
            *request,
            event,
            now,
            r,
        ),
        final(fleet).cache == old(fleet).cache,
        event matches CallEvent::Answered { ticket, answer: Ok(a) } ==> (r matches CallStep::Relay(
            x,
        ) && x == a),
{
}

/// A warming pass loads each configured server once, in the order of the names.
pub proof fn law_warm_all(fleet: &Fleet, r: Warming, i: int)
    requires
        call_ensures(Fleet::warm_all, (fleet,), r),
    ensures
        r.names().len() == fleet.config.servers.rows().len(),
        0 <= i < r.names().len() ==> r.names()[i] == fleet.config.servers.rows()[i].0,
        r.outcomes().len() == 0,
{
}

/// The next server of a warming pass is the first of which nothing is known
/// yet; what became of it is noted under its name, and it is dropped whether or
/// not its load succeeded.
pub proof fn law_warming_goes_on(
    pass: &mut Warming,
    fleet: &mut Fleet,
    last: LoadStep,
    r: bool,
)
    requires
        call_ensures(Warming::loaded, (pass, fleet, last), r),
        old(pass).outcomes().len() < old(pass).names().len(),
        last is Loaded || last is Failed,
    ensures
        ({
            let name = old(pass).names()[old(pass).outcomes().len() as int];
            &&& final(pass).names() == old(pass).names()
            &&& final(pass).outcomes().len() == old(pass).outcomes().len() + 1
            &&& final(pass).outcomes().drop_last() =~= old(pass).outcomes()
            &&& final(pass).outcomes().last().0 == name
            &&& last is Loaded ==> final(pass).outcomes().last().1 == Ok::<usize, Seq<char>>(
                old(fleet).cache@[name].len(),
            )
            &&& last matches LoadStep::Failed(e) ==> final(pass).outcomes().last().1 == Err::<
                usize,
                Seq<char>,
            >(e@)
            &&& !final(fleet).children@.contains_key(name)
            &&& final(fleet).children@ == old(fleet).children@.remove(name)
            &&& final(fleet).cache == old(fleet).cache
            &&& final(fleet).config == old(fleet).config
            &&& r <==> old(fleet).children@.contains_key(name)
        }),
{
}

/// A warming pass is over when something is known of each server.
pub proof fn law_warming_ends(pass: &Warming, r: Option<&String>)
    requires
        call_ensures(Warming::next, (pass,), r),
    ensures
        pass.outcomes().len() >= pass.names().len() ==> r is None,
        pass.outcomes().len() < pass.names().len() ==> (r matches Some(name) && name@
            == pass.names()[pass.outcomes().len() as int]),
{
}

/// A text in ASCII with its letters made small.
pub open spec fn small(s: Seq<char>) -> Seq<char> {
    Seq::new(s.len(), |i: int| ascii_small(s[i]))
}

/// A search does not look at case: an ASCII query finds every known tool whose
/// ASCII name or description holds it, whatever the case of the letters in
/// either.
pub proof fn law_search_finds_in_any_case(
    fleet: &Fleet,
    query: &str,
    server: Seq<char>,
    tool: ToolView,
    r: Vec<ToolHit>,
) -> (h: int)
    requires
        call_ensures(Fleet::search, (fleet, query), r),
        fleet.cache.valid(),
        knows(*fleet, server, tool),
        is_plain(query@),
        (is_plain(tool.name) && has(small(tool.name), small(query@))) || (tool.description is Some
            && is_plain(tool.description->0) && has(
            small(tool.description->0),
            small(query@),
        )),
    ensures
        0 <= h < r@.len(),
        tells_of(r@[h]@, fleet.config, server, tool),
{
    let rows = fleet.cache.rows();
    let known = crate::fleet::known_rows(rows);
    let i = choose|i: int| keyed_at(rows, server, i);
    assert(keyed_at(rows, server, i));
    lemma_keyed_once(rows, i);
    let k = choose|k: int|
        0 <= k < fleet.cache@[server]@.len() && (#[trigger] fleet.cache@[server]@[k])@ == tool;
    assert(known[i].1[k] == tool);
    assert(crate::fleet::tools_lowered_plainly(known[i].1));
    assert(crate::fleet::tool_lowered_plainly(known[i].1[k]));
    assert(query@.map_values(|c: char| ascii_small(c)) =~= small(query@));
    assert(tool.name.map_values(|c: char| ascii_small(c)) =~= small(tool.name));
    if let Some(d) = tool.description {
        assert(d.map_values(|c: char| ascii_small(c)) =~= small(d));
    }
    assert(holds_query(tool, query@));
    law_search_finds(fleet, query, server, tool, r)
}

/// Idle servers are looked for every thirty seconds, and one that is stopped is
/// given three seconds to end by itself.
pub proof fn law_reaping_pace()
    ensures
        crate::fleet::REAP_SCAN_INTERVAL_SECS == 30,
        crate::fleet::CANCEL_TIMEOUT_SECS == 3,
        crate::fleet::DEFAULT_IDLE_TIMEOUT_SECS == 600,
{
}

/// A call of load_server ends, once the server listed its tools, with the
/// server's name and everything that it said of each tool, in order; the tools
/// are kept, and the cache is written with them.
pub proof fn law_load_server_call<'a, A, R>(
    dangler: &mut Dangler,
    call: &'a MetaCall<A>,
    name: String,
    ticket: u64,
    tools: Vec<ToolSchema>,
    event: MetaEvent<R>,
    now: Moment,
    r: MetaStep<'a, A, R>,
)
    requires
        call_ensures(Dangler::call_tool::<A, R>, (dangler, call, event, now), r),
        *call == (MetaCall::<A>::LoadServer { name }),
        event == (MetaEvent::<R>::Listed { ticket, listed: Ok(tools) }),
    ensures
        final(dangler).fleet.config == old(dangler).fleet.config,
        final(dangler).fleet.cache@ == old(dangler).fleet.cache@.insert(name@, tools),
        r matches MetaStep::Loaded { reply, cache_file } && {
            &&& cache_file@ == cache_text(
                crate::fleet::known_rows(final(dangler).fleet.cache.rows()),
            )
            &&& exists|j: JsonView| #[trigger]
                json_pretty(j) == reply@ && j is Object && j->Object_0.len() == 2 && j.member(
                    "server"@,
                ) == Some(JsonView::Str(name@)) && (j.member("tools"@) matches Some(
                    JsonView::Array(listed),
                ) && listed.len() == tools@.len() && forall|i: int|
                    0 <= i < listed.len() ==> (#[trigger] listed[i]) == tools@[i]@.json)
        },
{
    let held = crate::tool::tools_view(tools@);
    law_load_is_answered_with_the_schemas(name@, held);
    assert(json_pretty(crate::server::load_reply(name@, held)) == r->Loaded_reply@);
}

/// Each server introduces itself by its own name.
pub proof fn law_servers_introduce_themselves(a: ServerInfo, b: ServerInfo, c: ServerInfo)
    requires
        call_ensures(Dangler::get_info, (), a),
        call_ensures(Godaddy::get_info, (), b),
        call_ensures(Ytdl::get_info, (), c),
    ensures
        a.name@ == "dangler"@,
        b.name@ == "dangler-godaddy"@,
        c.name@ == "dangler-ytdl"@,
{
}

} // verus!
