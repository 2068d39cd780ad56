//! What the fleet does with requests and with idle servers, told by what goes
//! in and what comes out.

use crate::config::{Config, ServerSpec};
use crate::fleet::{
    call_goes, claimed, idle_limit, listing_failure, load_goes, no_server, reaped, released, spared,
    spawn_failure, warm_line, warmed, CallEvent, CallStep, Child, Fleet, LoadEvent, LoadStep,
    Moment, SpawnFailure, ToolRequest,
};
use crate::fleet_laws::law_reap_takes_exactly_the_idle;
use crate::table::{ascending, mapping};
use crate::text::decimal;
use crate::tool::ToolSchema;
use vstd::prelude::*;
use vstd::string::*;

verus! {

/// The idle limit that the server `name` has of its own.
pub open spec fn own_limit(config: Config, name: Seq<char>) -> Option<u64> {
    if config.servers@.contains_key(name) {
        config.servers@[name].idle_timeout_secs
    } else {
        None
    }
}

/// `secs` is the idle limit of the server `name`: its own where it has one,
/// whatever the global one is; the global one where only that is set; and ten
/// minutes where neither is.
pub open spec fn is_limit(config: Config, name: Seq<char>, secs: u64) -> bool {
    ||| own_limit(config, name) == Some(secs)
    ||| own_limit(config, name) is None && config.idle_timeout_secs == Some(secs)
    ||| own_limit(config, name) is None && config.idle_timeout_secs is None && secs == 600
}

/// The idle limit of a server counts in seconds, and a limit of zero is none.
pub proof fn law_limit_is_the_servers_own_first(config: Config, name: Seq<char>, secs: u64)
    requires
        is_limit(config, name, secs),
    ensures
        secs > 0 ==> (idle_limit(config, name) matches Some(limit) && limit.nanos == secs
            * 1_000_000_000),
        secs == 0 ==> idle_limit(config, name) is None,
{
}

/// What a server has set for itself holds whatever the global limit is: two
/// configurations that agree on it give it the same limit.
pub proof fn law_own_limit_overrides_the_global_one(
    a: Config,
    b: Config,
    name: Seq<char>,
    secs: u64,
)
    requires
        a.servers@.contains_key(name),
        b.servers@.contains_key(name),
        a.servers@[name].idle_timeout_secs == Some(secs),
        b.servers@[name].idle_timeout_secs == Some(secs),
    ensures
        idle_limit(a, name) == idle_limit(b, name),
        secs > 0 ==> (idle_limit(a, name) matches Some(limit) && limit.nanos == secs
            * 1_000_000_000),
        secs == 0 ==> idle_limit(a, name) is None,
{
}

/// A reap pass takes a server exactly where its limit is not zero, no request
/// uses it, and it went unused for at least its limit. What it does not take
/// stays as it is.
pub proof fn law_reaped_exactly_when_idle_for_the_limit(
    config: Config,
    children: Map<Seq<char>, Child>,
    name: Seq<char>,
    secs: u64,
    now: Moment,
)
    requires
        is_limit(config, name, secs),
        children.contains_key(name),
    ensures
        ({
            let child = children[name];
            let idle = secs > 0 && child.inflight == 0 && now.nanos - child.last_used.nanos >= secs
                * 1_000_000_000;
            &&& spared(config, children, now).contains_key(name) <==> !idle
            &&& !idle ==> spared(config, children, now)[name] == child
        }),
{
}

/// What is not running is neither spared nor taken.
pub proof fn law_reaping_makes_nothing_up(
    config: Config,
    children: Map<Seq<char>, Child>,
    rows: Seq<(Seq<char>, Child)>,
    name: Seq<char>,
    now: Moment,
)
    requires
        !children.contains_key(name),
        ascending(rows),
        mapping(rows) == children,
    ensures
        !spared(config, children, now).contains_key(name),
        !reaped(config, rows, now).contains(name),
{
    law_reap_takes_exactly_the_idle(config, rows, now, name);
}

/// A reap pass names just the servers that it takes.
pub proof fn law_reaped_names_are_those_taken(
    config: Config,
    rows: Seq<(Seq<char>, Child)>,
    name: Seq<char>,
    secs: u64,
    now: Moment,
)
    requires
        ascending(rows),
        is_limit(config, name, secs),
        mapping(rows).contains_key(name),
    ensures
        ({
            let child = mapping(rows)[name];
            reaped(config, rows, now).contains(name) <==> secs > 0 && child.inflight == 0
                && now.nanos - child.last_used.nanos >= secs * 1_000_000_000
        }),
{
    law_reap_takes_exactly_the_idle(config, rows, now, name);
}

/// The names of a reap pass come in the order of the servers: two groups of
/// servers, one behind the other, are taken one behind the other.
pub proof fn law_reaping_goes_in_order(
    config: Config,
    a: Seq<(Seq<char>, Child)>,
    b: Seq<(Seq<char>, Child)>,
    now: Moment,
)
    ensures
        reaped(config, a + b, now) == reaped(config, a, now) + reaped(config, b, now),
        reaped(config, a, now).len() <= a.len(),
    decreases a.len() + b.len(),
{
    if b.len() == 0 {
        assert(a + b =~= a);
        assert(reaped(config, a, now) + reaped(config, b, now) =~= reaped(config, a, now));
        if a.len() > 0 {
            law_reaping_goes_in_order(config, a.drop_last(), b, now);
        }
    } else {
        law_reaping_goes_in_order(config, a, b.drop_last(), now);
        assert((a + b).drop_last() =~= a + b.drop_last());
        assert((a + b).last() == b.last());
        assert(reaped(config, a + b, now) =~= reaped(config, a, now) + reaped(config, b, now));
    }
}

/// A server whose own limit is zero is spared by every reap pass, whatever the
/// global limit is and however long it went unused.
pub proof fn law_own_zero_is_never_reaped(
    config: Config,
    children: Map<Seq<char>, Child>,
    name: Seq<char>,
    now: Moment,
)
    requires
        config.servers@.contains_key(name),
        config.servers@[name].idle_timeout_secs == Some(0u64),
        children.contains_key(name),
    ensures
        spared(config, children, now).contains_key(name),
        spared(config, children, now)[name] == children[name],
{
}

/// A request restarts the idle clock, both when it begins and when it ends: a
/// server that was given back at `end` is spared until its limit has passed
/// since then.
pub proof fn law_use_restarts_the_clock(
    config: Config,
    children: Map<Seq<char>, Child>,
    name: Seq<char>,
    secs: u64,
    end: Moment,
    now: Moment,
)
    requires
        is_limit(config, name, secs),
        children.contains_key(name),
        now.nanos - end.nanos < secs * 1_000_000_000,
    ensures
        spared(
            config,
            released(children, name, children[name].generation, end),
            now,
        ).contains_key(name),
        children[name].inflight < u32::MAX ==> spared(
            config,
            claimed(children, name, end),
            now,
        ).contains_key(name),
{
}

/// A claim adds one request to the server and stamps the time; it is the same
/// child, and no other server is touched.
pub proof fn law_claim_adds_one(
    children: Map<Seq<char>, Child>,
    name: Seq<char>,
    other: Seq<char>,
    now: Moment,
)
    requires
        children.contains_key(name),
        children[name].inflight < u32::MAX,
        other != name,
    ensures
        claimed(children, name, now).contains_key(name),
        claimed(children, name, now)[name].inflight == children[name].inflight + 1,
        claimed(children, name, now)[name].last_used == now,
        claimed(children, name, now)[name].generation == children[name].generation,
        claimed(children, name, now).contains_key(other) <==> children.contains_key(other),
        children.contains_key(other) ==> claimed(children, name, now)[other] == children[other],
{
}

/// A release takes one request from the server that its ticket is for, and
/// stamps the time; it is the same child, and no other server is touched.
pub proof fn law_release_takes_one(
    children: Map<Seq<char>, Child>,
    name: Seq<char>,
    other: Seq<char>,
    ticket: u64,
    now: Moment,
)
    requires
        other != name,
    ensures
        ({
            let after = released(children, name, ticket, now);
            &&& forall|n: Seq<char>| #[trigger]
                after.contains_key(n) <==> children.contains_key(n)
            &&& children.contains_key(other) ==> after[other] == children[other]
            &&& children.contains_key(name) && children[name].generation == ticket ==> {
                &&& after[name].inflight == (if children[name].inflight > 0 {
                    children[name].inflight - 1
                } else {
                    0
                })
                &&& after[name].last_used == now
                &&& after[name].generation == ticket
            }
            &&& children.contains_key(name) && children[name].generation != ticket ==> after[name]
                == children[name]
        }),
{
    let after = released(children, name, ticket, now);
    assert forall|n: Seq<char>| #[trigger]
        after.contains_key(n) <==> children.contains_key(n) by {}
}

/// The child of a server that came up is in use by the request that had it
/// spawned, from that moment on, and no other server is touched.
pub proof fn law_spawned_is_in_use(
    children: Map<Seq<char>, Child>,
    name: Seq<char>,
    other: Seq<char>,
    ticket: u64,
    now: Moment,
)
    requires
        other != name,
    ensures
        warmed(children, name, ticket, now).contains_key(name),
        warmed(children, name, ticket, now)[name].inflight == 1,
        warmed(children, name, ticket, now)[name].last_used == now,
        warmed(children, name, ticket, now)[name].generation == ticket,
        warmed(children, name, ticket, now).contains_key(other) <==> children.contains_key(other),
        children.contains_key(other) ==> warmed(children, name, ticket, now)[other]
            == children[other],
{
}

/// The tickets of the children that run were all given before, and the next one
/// is none of them.
pub proof fn law_tickets_are_fresh(fleet: Fleet, name: Seq<char>)
    requires
        fleet.well_formed(),
        fleet.children@.contains_key(name),
    ensures
        fleet.children@[name].generation < fleet.spawns,
{
}

/// Nothing changes from the one fleet to the other.
pub open spec fn unchanged(before: Fleet, after: Fleet) -> bool {
    &&& after.config == before.config
    &&& after.cache == before.cache
    &&& after.spawns == before.spawns
    &&& after.children@ == before.children@
}

/// A call begins with what the fleet knows of the server: one that is not
/// configured is an error that names it, a warm one is claimed and called at
/// once with the request as it is, under the ticket of its child, and a cold
/// one is spawned first.
pub proof fn law_call_begins<A, R>(
    before: Fleet,
    after: Fleet,
    server: Seq<char>,
    request: ToolRequest<A>,
    now: Moment,
    step: CallStep<'_, A, R>,
)
    requires
        call_goes(before, after, server, request, CallEvent::Begin, now, step),
    ensures
        !before.config.servers@.contains_key(server) ==> unchanged(before, after) && (
        step matches CallStep::Failed(e) && e@ == "no server '"@ + server + "' in config"@),
        before.config.servers@.contains_key(server) && !before.children@.contains_key(server)
            ==> unchanged(before, after) && step is Spawn,
        before.config.servers@.contains_key(server) && before.children@.contains_key(server) ==> {
            &&& step matches CallStep::Call { ticket, request: sent }
            &&& ticket == before.children@[server].generation
            &&& *sent == request
            &&& after.children@ == claimed(before.children@, server, now)
            &&& after.config == before.config && after.cache == before.cache && after.spawns
                == before.spawns
        },
{
}

/// A load begins in the same way: an unknown server is an error, a warm one is
/// claimed and asked for its tools, and a cold one is spawned first.
pub proof fn law_load_begins(
    before: Fleet,
    after: Fleet,
    name: Seq<char>,
    now: Moment,
    step: LoadStep,
)
    requires
        load_goes(before, after, name, LoadEvent::Begin, now, step),
    ensures
        !before.config.servers@.contains_key(name) ==> unchanged(before, after) && (
        step matches LoadStep::Failed(e) && e@ == "no server '"@ + name + "' in config"@),
        before.config.servers@.contains_key(name) && !before.children@.contains_key(name)
            ==> unchanged(before, after) && step is Spawn,
        before.config.servers@.contains_key(name) && before.children@.contains_key(name) ==> {
            &&& step matches LoadStep::List { ticket }
            &&& ticket == before.children@[name].generation
            &&& after.children@ == claimed(before.children@, name, now)
            &&& after.config == before.config && after.cache == before.cache && after.spawns
                == before.spawns
        },
{
}

/// The hint on how to provision a server, as it ends an error.
pub open spec fn hint_at_the_end(hint: Option<String>) -> Seq<char> {
    if hint is Some {
        ". "@ + hint->0@
    } else {
        Seq::empty()
    }
}

/// Bringing up a server that failed is an error that names the server and the
/// cause, what was run where it did not start, and ends in the server's setup
/// hint where it has one.
pub proof fn law_spawn_failures_are_explained(
    name: Seq<char>,
    spec: ServerSpec,
    cause: String,
)
    ensures
        spawn_failure(name, spec, SpawnFailure::Spawn(cause)) == "spawning '"@ + name + "' ("@
            + spec.command@ + "): "@ + cause@ + hint_at_the_end(spec.setup_hint),
        spawn_failure(name, spec, SpawnFailure::Handshake(cause)) == "MCP handshake with '"@ + name
            + "': "@ + cause@ + hint_at_the_end(spec.setup_hint),
{
}

/// A call whose server came up goes on with the request as it is, under the
/// ticket of the new child, which no child had before; one whose server did not
/// come up fails and changes nothing.
pub proof fn law_call_goes_on_once_spawned<A, R>(
    before: Fleet,
    after: Fleet,
    server: Seq<char>,
    request: ToolRequest<A>,
    outcome: Result<(), SpawnFailure>,
    now: Moment,
    step: CallStep<'_, A, R>,
)
    requires
        call_goes(before, after, server, request, CallEvent::Spawned(outcome), now, step),
    ensures
        outcome is Ok ==> {
            &&& step matches CallStep::Call { ticket, request: sent }
            &&& ticket == before.spawns
            &&& *sent == request
            &&& after.spawns == before.spawns + 1
            &&& after.children@ == warmed(before.children@, server, ticket, now)
            &&& after.config == before.config && after.cache == before.cache
        },
        outcome matches Err(f) ==> unchanged(before, after) && (step matches CallStep::Failed(e)
            && e@ == spawn_failure(server, before.config.servers@[server], f)),
{
}

/// A load whose server came up asks it for its tools; one whose server did not
/// come up fails and changes nothing.
pub proof fn law_load_goes_on_once_spawned(
    before: Fleet,
    after: Fleet,
    name: Seq<char>,
    outcome: Result<(), SpawnFailure>,
    now: Moment,
    step: LoadStep,
)
    requires
        load_goes(before, after, name, LoadEvent::Spawned(outcome), now, step),
    ensures
        outcome is Ok ==> {
            &&& step matches LoadStep::List { ticket }
            &&& ticket == before.spawns
            &&& after.spawns == before.spawns + 1
            &&& after.children@ == warmed(before.children@, name, ticket, now)
            &&& after.config == before.config && after.cache == before.cache
        },
        outcome matches Err(f) ==> unchanged(before, after) && (step matches LoadStep::Failed(e)
            && e@ == spawn_failure(name, before.config.servers@[name], f)),
{
}

/// A call that was answered gives the server back and relays the answer as it
/// came; one that failed gives it back as well, and names the server, the tool
/// and the cause.
pub proof fn law_call_ends<A, R>(
    before: Fleet,
    after: Fleet,
    server: Seq<char>,
    request: ToolRequest<A>,
    ticket: u64,
    answer: Result<R, String>,
    now: Moment,
    step: CallStep<'_, A, R>,
)
    requires
        call_goes(
            before,
            after,
            server,
            request,
            CallEvent::Answered { ticket, answer },
            now,
            step,
        ),
    ensures
        after.config == before.config,
        after.cache == before.cache,
        after.spawns == before.spawns,
        after.children@ == released(before.children@, server, ticket, now),
        answer matches Ok(a) ==> (step matches CallStep::Relay(r) && r == a),
        answer matches Err(cause) ==> (step matches CallStep::Failed(e) && e@ == "calling "@ + server
            + "/"@ + request.tool@ + ": "@ + cause@),
{
}

/// A load that listed the server's tools gives the server back and keeps just
/// these tools for it, in place of what was known of it, and nothing else
/// changes in the cache; one that failed gives the server back, keeps what was
/// known, and names the server and the cause.
pub proof fn law_load_ends(
    before: Fleet,
    after: Fleet,
    name: Seq<char>,
    other: Seq<char>,
    ticket: u64,
    listed: Result<Vec<ToolSchema>, String>,
    now: Moment,
    step: LoadStep,
)
    requires
        load_goes(before, after, name, LoadEvent::Listed { ticket, listed }, now, step),
        other != name,
    ensures
        after.config == before.config,
        after.spawns == before.spawns,
        after.children@ == released(before.children@, name, ticket, now),
        listed matches Ok(tools) ==> {
            &&& step is Loaded
            &&& after.cache@.contains_key(name) && after.cache@[name] == tools
            &&& after.cache@.contains_key(other) <==> before.cache@.contains_key(other)
            &&& before.cache@.contains_key(other) ==> after.cache@[other] == before.cache@[other]
        },
        listed matches Err(cause) ==> {
            &&& step matches LoadStep::Failed(e)
            &&& e@ == "listing tools of '"@ + name + "': "@ + cause@
            &&& after.cache == before.cache
        },
{
}

/// What the pre-loader says of a server names it, and says how many tools were
/// cached or why none were.
pub proof fn law_warming_is_reported(name: Seq<char>, n: usize, cause: Seq<char>)
    ensures
        warm_line(name, Ok(n)) == "  "@ + name + ": "@ + decimal(n as nat) + " tools cached"@,
        warm_line(name, Err(cause)) == "  "@ + name + ": FAILED — "@ + cause,
        no_server(name) == "no server '"@ + name + "' in config"@,
        listing_failure(name, cause) == "listing tools of '"@ + name + "': "@ + cause,
{
}

} // verus!
