//! What holds of the fleet whatever is done to it.

use crate::config::{Config, ServerSpec};
use crate::fleet::{
    all_before, begun, brought_up, claimed, description_of, due, found, identity_of, idle_secs,
    in_order, known_rows, load_goes, names_of, not_indexed, opened, outcome_of, persisted, reaped,
    released, same_but_children, search_hits, server_hits, spared, warmed, Child, Fleet, HitView,
    LoadEvent, LoadStep, Moment, SpawnFailure,
};
use crate::table::{ascending, keyed_at, lemma_keyed_once, mapping};
use crate::text::{
    ascii_small, is_plain, lemma_order_is_total, lowercase, lowered_plainly, same_but_case,
};
use crate::tool::{all_shallow, ToolSchema, ToolView};
use vstd::prelude::*;

verus! {

/// The warm servers, and how many were ever spawned.
pub struct Warm {
    pub children: Map<Seq<char>, Child>,
    pub spawns: u64,
}

/// One thing that happens to the warm servers.
pub enum Op {
    /// A request claims a server, where it is warm.
    Acquire(Seq<char>, Moment),
    /// A request had a server spawned, which it claims.
    Spawned(Seq<char>, Moment),
    /// A request gives back the child that its ticket is for.
    Release(Seq<char>, u64, Moment),
    /// A server is dropped by hand.
    Drop(Seq<char>),
    /// A reap pass.
    Reap(Moment),
}

/// The warm servers of a fleet that was just opened.
pub open spec fn none_warm() -> Warm {
    Warm { children: Map::empty(), spawns: 0 }
}

/// The warm servers after one thing happened.
pub open spec fn after_op(config: Config, warm: Warm, op: Op) -> Warm {
    match op {
        Op::Acquire(name, now) => Warm { children: claimed(warm.children, name, now), ..warm },
        Op::Spawned(name, now) => Warm {
            children: warmed(warm.children, name, warm.spawns, now),
            spawns: (warm.spawns + 1) as u64,
        },
        Op::Release(name, ticket, now) => Warm {
            children: released(warm.children, name, ticket, now),
            ..warm
        },
        Op::Drop(name) => Warm { children: warm.children.remove(name), ..warm },
        Op::Reap(now) => Warm { children: spared(config, warm.children, now), ..warm },
    }
}

/// The warm servers after all these things happened, from a fleet that was
/// just opened on.
pub open spec fn after_ops(config: Config, ops: Seq<Op>) -> Warm
    decreases ops.len(),
{
    if ops.len() == 0 {
        none_warm()
    } else {
        after_op(config, after_ops(config, ops.drop_last()), ops.last())
    }
}

/// The ticket for the child of `name` that the request gets which `op` is a
/// claim of, if it is one.
pub open spec fn granted(warm: Warm, op: Op, name: Seq<char>) -> Option<u64> {
    match op {
        Op::Acquire(n, _) => if n == name && warm.children.contains_key(name) {
            Some(warm.children[name].generation)
        } else {
            None
        },
        Op::Spawned(n, _) => if n == name {
            Some(warm.spawns)
        } else {
            None
        },
        _ => None,
    }
}

/// How many requests hold the ticket for the child of `name`: they have got it
/// and have not released it.
pub open spec fn holders(config: Config, ops: Seq<Op>, name: Seq<char>, ticket: u64) -> int
    decreases ops.len(),
{
    if ops.len() == 0 {
        0
    } else {
        let less = ops.drop_last();
        let gets = granted(after_ops(config, less), ops.last(), name) == Some(ticket);
        let gives = ops.last() matches Op::Release(n, t, _) && n == name && t == ticket;
        holders(config, less, name, ticket) + (if gets {
            1int
        } else {
            0
        }) - (if gives {
            1int
        } else {
            0
        })
    }
}

/// `op` can happen after `ops`: a claim has room, only a cold server is
/// spawned, and only who holds a ticket releases it.
pub open spec fn can_follow(config: Config, ops: Seq<Op>, op: Op) -> bool {
    let warm = after_ops(config, ops);
    match op {
        Op::Acquire(name, _) => warm.children.contains_key(name) ==> warm.children[name].inflight
            < u32::MAX,
        Op::Spawned(name, _) => !warm.children.contains_key(name) && warm.spawns < u64::MAX,
        Op::Release(name, ticket, _) => holders(config, ops, name, ticket) > 0,
        _ => true,
    }
}

/// All these things can happen, one after the other.
pub open spec fn possible(config: Config, ops: Seq<Op>) -> bool
    decreases ops.len(),
{
    ops.len() > 0 ==> possible(config, ops.drop_last()) && can_follow(
        config,
        ops.drop_last(),
        ops.last(),
    )
}

/// Each child counts just the requests that hold its ticket, and no ticket is
/// out that is yet to be given.
pub open spec fn all_counted(config: Config, ops: Seq<Op>) -> bool {
    let warm = after_ops(config, ops);
    &&& all_before(warm.children, warm.spawns)
    &&& forall|name: Seq<char>|
        warm.children.contains_key(name) ==> (#[trigger] warm.children[name]).inflight == holders(
            config,
            ops,
            name,
            warm.children[name].generation,
        )
    &&& forall|name: Seq<char>, ticket: u64|
        ticket >= warm.spawns ==> #[trigger] holders(config, ops, name, ticket) == 0
    &&& forall|name: Seq<char>, ticket: u64| #[trigger] holders(config, ops, name, ticket) >= 0
}

/// Whatever happens, each child that is running counts exactly the requests
/// that hold its ticket. Requests to a child that was dropped do not count for
/// one that was spawned under its name since.
pub proof fn law_requests_are_counted(config: Config, ops: Seq<Op>)
    requires
        possible(config, ops),
    ensures
        all_counted(config, ops),
    decreases ops.len(),
{
    if ops.len() > 0 {
        let less = ops.drop_last();
        let op = ops.last();
        let before = after_ops(config, less);
        let after = after_ops(config, ops);
        law_requests_are_counted(config, less);
        assert(after == after_op(config, before, op));
        assert forall|name: Seq<char>, ticket: u64| #[trigger]
            holders(config, ops, name, ticket) >= 0 by {
            assert(holders(config, less, name, ticket) >= 0);
        }
        assert forall|name: Seq<char>, ticket: u64| ticket >= after.spawns implies #[trigger]
            holders(config, ops, name, ticket) == 0 by {
            assert(holders(config, less, name, ticket) == 0);
            if before.children.contains_key(name) {
                assert(before.children[name].generation < before.spawns);
            }
        }
        assert forall|name: Seq<char>| after.children.contains_key(name) implies (
        #[trigger] after.children[name]).inflight == holders(
            config,
            ops,
            name,
            after.children[name].generation,
        ) && after.children[name].generation < after.spawns by {
            if before.children.contains_key(name) {
                let ticket = before.children[name].generation;
                assert(before.children[name].inflight == holders(config, less, name, ticket));
                assert(ticket < before.spawns);
            }
            assert(holders(config, less, name, before.spawns) == 0);
        }
    }
}

/// A downstream call is never reaped mid-request: no reap pass takes the child
/// of a request that holds its ticket, however stale the child's clock looks,
/// and whatever happened before, the dropping and spawning of its server
/// included. `rows` are the warm servers by name.
pub proof fn law_in_use_is_never_reaped(
    config: Config,
    ops: Seq<Op>,
    rows: Seq<(Seq<char>, Child)>,
    name: Seq<char>,
    ticket: u64,
    now: Moment,
)
    requires
        possible(config, ops),
        holders(config, ops, name, ticket) > 0,
        after_ops(config, ops).children.contains_key(name),
        after_ops(config, ops).children[name].generation == ticket,
        ascending(rows),
        mapping(rows) == after_ops(config, ops).children,
    ensures
        !reaped(config, rows, now).contains(name),
        spared(config, mapping(rows), now).contains_key(name),
        spared(config, mapping(rows), now)[name] == mapping(rows)[name],
{
    law_requests_are_counted(config, ops);
    assert(mapping(rows)[name].inflight > 0);
    law_reap_takes_exactly_the_idle(config, rows, now, name);
}

/// The child of a request runs from the claim to the release, unless it is
/// dropped by hand: where it ran after the first `k` of `ops`, its ticket was
/// held ever since, and its server was not dropped since, it runs still.
pub proof fn law_in_use_runs_until_dropped(
    config: Config,
    ops: Seq<Op>,
    k: int,
    name: Seq<char>,
    ticket: u64,
)
    requires
        possible(config, ops),
        0 <= k <= ops.len(),
        after_ops(config, ops.take(k)).children.contains_key(name),
        after_ops(config, ops.take(k)).children[name].generation == ticket,
        forall|i: int|
            k <= i < ops.len() ==> holders(config, #[trigger] ops.take(i), name, ticket) > 0,
        forall|i: int| k <= i < ops.len() ==> (#[trigger] ops[i]) != Op::Drop(name),
    ensures
        after_ops(config, ops).children.contains_key(name),
        after_ops(config, ops).children[name].generation == ticket,
    decreases ops.len(),
{
    if k < ops.len() {
        let less = ops.drop_last();
        assert(less.take(k) =~= ops.take(k));
        assert forall|i: int| k <= i < less.len() implies holders(
            config,
            #[trigger] less.take(i),
            name,
            ticket,
        ) > 0 by {
            assert(less.take(i) =~= ops.take(i));
        }
        assert forall|i: int| k <= i < less.len() implies (#[trigger] less[i]) != Op::Drop(
            name,
        ) by {
            assert(less[i] == ops[i]);
        }
        law_in_use_runs_until_dropped(config, less, k, name, ticket);
        law_requests_are_counted(config, less);
        assert(ops.take(less.len() as int) =~= less);
        assert(holders(config, less, name, ticket) > 0);
        assert(after_ops(config, less).children[name].inflight > 0);
        assert(ops[ops.len() - 1] != Op::Drop(name));
    } else {
        assert(ops.take(k) =~= ops);
    }
}

/// A server whose idle limit is zero, its own or the global one that it falls
/// back on, is spared by every reap pass.
pub proof fn law_zero_means_never(
    config: Config,
    children: Map<Seq<char>, Child>,
    name: Seq<char>,
    now: Moment,
)
    requires
        children.contains_key(name),
        idle_secs(config, name) == 0,
    ensures
        spared(config, children, now).contains_key(name),
        spared(config, children, now)[name] == children[name],
{
}

/// A reap pass takes exactly the idle servers: those that nothing uses and
/// that were unused for their whole limit. The pass names each of them and
/// nothing else, and what it names is cold afterwards, so that the next
/// request spawns it again.
pub proof fn law_reap_takes_exactly_the_idle(
    config: Config,
    rows: Seq<(Seq<char>, Child)>,
    now: Moment,
    name: Seq<char>,
)
    requires
        ascending(rows),
    ensures
        reaped(config, rows, now).contains(name) <==> mapping(rows).contains_key(name) && due(
            config,
            name,
            mapping(rows)[name],
            now,
        ),
        mapping(rows).contains_key(name) ==> (spared(config, mapping(rows), now).contains_key(name)
            <==> !reaped(config, rows, now).contains(name)),
    decreases rows.len(),
{
    if rows.len() > 0 {
        let less = rows.drop_last();
        let rest = reaped(config, less, now);
        let all = reaped(config, rows, now);
        let last = rows.len() - 1;
        assert(ascending(less));
        law_reap_takes_exactly_the_idle(config, less, now, name);
        lemma_keyed_once(rows, last);
        if rest.contains(name) {
            let k = choose|k: int| 0 <= k < rest.len() && rest[k] == name;
            assert(all[k] == name);
            let i = choose|i: int| keyed_at(less, name, i);
            assert(keyed_at(less, name, i));
            lemma_keyed_once(less, i);
            lemma_keyed_once(rows, i);
        }
        if all.contains(name) {
            let k = choose|k: int| 0 <= k < all.len() && all[k] == name;
            if k < rest.len() {
                assert(rest[k] == name);
            }
        }
        if mapping(rows).contains_key(name) {
            let i = choose|i: int| keyed_at(rows, name, i);
            assert(keyed_at(rows, name, i));
            lemma_keyed_once(rows, i);
            if i < last {
                assert(keyed_at(less, name, i));
                lemma_keyed_once(less, i);
            } else if due(config, name, rows[last].1, now) {
                assert(all[rest.len() as int] == name);
            }
        }
    }
}

/// A request to a warm server leaves it as busy as it was: the claim that it
/// begins with and the release that it ends with cancel out.
pub proof fn law_claim_and_release_cancel_out(
    children: Map<Seq<char>, Child>,
    name: Seq<char>,
    begin: Moment,
    end: Moment,
)
    requires
        children.contains_key(name),
        children[name].inflight < u32::MAX,
    ensures
        released(
            claimed(children, name, begin),
            name,
            children[name].generation,
            end,
        ) == children.insert(
            name,
            (Child { last_used: end, ..children[name] }),
        ),
{
    let ticket = children[name].generation;
    assert(released(claimed(children, name, begin), name, ticket, end) =~= children.insert(
        name,
        Child { last_used: end, ..children[name] },
    ));
}

/// A request to a cold server leaves it warm and unused, once it was spawned
/// and asked.
pub proof fn law_first_request_leaves_it_idle(
    before: Fleet,
    spawning: Fleet,
    asking: Fleet,
    name: Seq<char>,
    ticket: u64,
    begin: Moment,
    up: Moment,
    end: Moment,
)
    requires
        before.config.servers@.contains_key(name),
        !before.children@.contains_key(name),
        begun(before, spawning, name, begin, None, true, None),
        brought_up(spawning, asking, name, Ok(()), up, Some(ticket), None),
    ensures
        released(asking.children@, name, ticket, end) == before.children@.insert(
            name,
            (Child { last_used: end, inflight: 0, generation: ticket }),
        ),
{
    assert(released(asking.children@, name, ticket, end) =~= before.children@.insert(
        name,
        Child { last_used: end, inflight: 0, generation: ticket },
    ));
}

/// A request whose child was dropped and which another was spawned for leaves
/// that other one alone when it ends.
pub proof fn law_stale_release_changes_nothing(
    children: Map<Seq<char>, Child>,
    name: Seq<char>,
    ticket: u64,
    generation: u64,
    up: Moment,
    end: Moment,
)
    requires
        ticket != generation,
    ensures
        released(children.remove(name), name, ticket, end) == children.remove(name),
        released(warmed(children.remove(name), name, generation, up), name, ticket, end) == warmed(
            children.remove(name),
            name,
            generation,
            up,
        ),
{
}

/// A request to a server that cannot be brought up changes nothing.
pub proof fn law_failed_spawn_changes_nothing(
    before: Fleet,
    spawning: Fleet,
    after: Fleet,
    name: Seq<char>,
    failure: SpawnFailure,
    begin: Moment,
    up: Moment,
    error: Option<Seq<char>>,
)
    requires
        !before.children@.contains_key(name),
        begun(before, spawning, name, begin, None, true, None),
        brought_up(spawning, after, name, Err(failure), up, None, error),
    ensures
        after.config == before.config,
        after.cache == before.cache,
        after.spawns == before.spawns,
        after.children@ == before.children@,
{
}

/// `hit` is what a search says of a tool of `server`.
pub open spec fn hit_for(config: Config, server: Seq<char>, tool: ToolView) -> HitView {
    HitView {
        server,
        tool: tool.name,
        description: description_of(tool),
        identity: identity_of(config, server),
    }
}

/// A search misses nothing and makes nothing up: each known tool whose name or
/// description holds the query is among the hits, and each hit stands for such
/// a tool.
pub proof fn law_search_finds_exactly_the_matches(
    config: Config,
    rows: Seq<(Seq<char>, Seq<ToolView>)>,
    query: Seq<char>,
)
    ensures
        forall|i: int, k: int|
            0 <= i < rows.len() && 0 <= k < rows[i].1.len() && found(query, rows[i].1[k])
                ==> search_hits(config, rows, query).contains(
                hit_for(config, rows[i].0, #[trigger] rows[i].1[k]),
            ),
        forall|h: int|
            0 <= h < search_hits(config, rows, query).len() ==> has_source(
                config,
                rows,
                query,
                #[trigger] search_hits(config, rows, query)[h],
            ),
    decreases rows.len(),
{
    if rows.len() > 0 {
        let less = rows.drop_last();
        let last = rows.len() - 1;
        let head = search_hits(config, less, query);
        let tail = server_hits(config, rows[last].0, rows[last].1, query);
        let all = search_hits(config, rows, query);
        law_search_finds_exactly_the_matches(config, less, query);
        lemma_server_hits(config, rows[last].0, rows[last].1, query);
        assert forall|i: int, k: int|
            0 <= i < rows.len() && 0 <= k < rows[i].1.len() && found(
                query,
                rows[i].1[k],
            ) implies all.contains(hit_for(config, rows[i].0, #[trigger] rows[i].1[k])) by {
            let hit = hit_for(config, rows[i].0, rows[i].1[k]);
            if i < last {
                assert(less[i].1[k] == rows[i].1[k]);
                assert(head.contains(hit));
                let h = choose|h: int| 0 <= h < head.len() && head[h] == hit;
                assert(all[h] == hit);
            } else {
                assert(tail.contains(hit));
                let h = choose|h: int| 0 <= h < tail.len() && tail[h] == hit;
                assert(all[head.len() + h] == hit);
            }
        }
        assert forall|h: int| 0 <= h < all.len() implies has_source(
            config,
            rows,
            query,
            #[trigger] all[h],
        ) by {
            if h < head.len() {
                assert(all[h] == head[h]);
                assert(has_source(config, less, query, head[h]));
                let (i, k) = choose|i: int, k: int|
                    stands_for(config, less, query, head[h], i, k);
                assert(stands_for(config, rows, query, all[h], i, k));
            } else {
                let k = choose|k: int|
                    0 <= k < rows[last].1.len() && found(query, rows[last].1[k])
                        && tail[h - head.len()] == hit_for(config, rows[last].0, rows[last].1[k]);
                assert(all[h] == tail[h - head.len()]);
                assert(stands_for(config, rows, query, all[h], last, k));
            }
        }
    }
}

/// `hit` stands for tool `k` of row `i`, which the search finds.
pub open spec fn stands_for(
    config: Config,
    rows: Seq<(Seq<char>, Seq<ToolView>)>,
    query: Seq<char>,
    hit: HitView,
    i: int,
    k: int,
) -> bool {
    &&& 0 <= i < rows.len()
    &&& 0 <= k < rows[i].1.len()
    &&& found(query, rows[i].1[k])
    &&& hit == hit_for(config, rows[i].0, rows[i].1[k])
}

/// `hit` stands for a tool of `rows` that the search finds.
pub open spec fn has_source(
    config: Config,
    rows: Seq<(Seq<char>, Seq<ToolView>)>,
    query: Seq<char>,
    hit: HitView,
) -> bool {
    exists|i: int, k: int| stands_for(config, rows, query, hit, i, k)
}

proof fn lemma_server_hits(
    config: Config,
    server: Seq<char>,
    tools: Seq<ToolView>,
    query: Seq<char>,
)
    ensures
        forall|k: int|
            0 <= k < tools.len() && found(query, tools[k]) ==> server_hits(
                config,
                server,
                tools,
                query,
            ).contains(hit_for(config, server, #[trigger] tools[k])),
        forall|h: int|
            0 <= h < server_hits(config, server, tools, query).len() ==> exists|k: int|
                0 <= k < tools.len() && found(query, #[trigger] tools[k]) && (
                #[trigger] server_hits(config, server, tools, query)[h]) == hit_for(
                    config,
                    server,
                    tools[k],
                ),
    decreases tools.len(),
{
    if tools.len() > 0 {
        let less = tools.drop_last();
        let last = tools.len() - 1;
        let head = server_hits(config, server, less, query);
        let all = server_hits(config, server, tools, query);
        lemma_server_hits(config, server, less, query);
        assert forall|k: int| 0 <= k < tools.len() && found(query, tools[k]) implies all.contains(
            hit_for(config, server, #[trigger] tools[k]),
        ) by {
            let hit = hit_for(config, server, tools[k]);
            if k < last {
                assert(less[k] == tools[k]);
                assert(head.contains(hit));
                let h = choose|h: int| 0 <= h < head.len() && head[h] == hit;
                assert(all[h] == hit);
            } else {
                assert(all[head.len() as int] == hit);
            }
        }
        assert forall|h: int| 0 <= h < all.len() implies exists|k: int|
            0 <= k < tools.len() && found(query, #[trigger] tools[k]) && (#[trigger] all[h])
                == hit_for(config, server, tools[k]) by {
            if h < head.len() {
                assert(all[h] == head[h]);
                let k = choose|k: int|
                    0 <= k < less.len() && found(query, #[trigger] less[k]) && head[h] == hit_for(
                        config,
                        server,
                        less[k],
                    );
                assert(tools[k] == less[k]);
            } else {
                assert(found(query, tools[last]));
            }
        }
    }
}

/// A search does not look at the case of the query: queries that are the same
/// in small letters find the same.
pub proof fn law_search_ignores_case(
    config: Config,
    rows: Seq<(Seq<char>, Seq<ToolView>)>,
    a: Seq<char>,
    b: Seq<char>,
)
    requires
        lowercase(a) == lowercase(b),
    ensures
        search_hits(config, rows, a) == search_hits(config, rows, b),
    decreases rows.len(),
{
    if rows.len() > 0 {
        law_search_ignores_case(config, rows.drop_last(), a, b);
        lemma_server_hits_ignore_case(config, rows.last().0, rows.last().1, a, b);
    }
}

/// Queries in ASCII that differ in the case of their letters alone find the
/// same. That ASCII texts are plain in small letters is what a search promises
/// of the query it is given.
pub proof fn law_search_ignores_ascii_case(
    config: Config,
    rows: Seq<(Seq<char>, Seq<ToolView>)>,
    a: Seq<char>,
    b: Seq<char>,
)
    requires
        is_plain(a),
        is_plain(b),
        same_but_case(a, b),
        lowered_plainly(a),
        lowered_plainly(b),
    ensures
        search_hits(config, rows, a) == search_hits(config, rows, b),
{
    assert(a.map_values(|c: char| ascii_small(c)) =~= b.map_values(|c: char| ascii_small(c)));
    law_search_ignores_case(config, rows, a, b);
}

/// A server that a reap pass takes is not forgotten: searches answer as before,
/// and the next request to it has it spawned again. `after` is the fleet after
/// the pass, and `next` the fleet once that request began.
pub proof fn law_reaped_is_not_forgotten(
    before: Fleet,
    after: Fleet,
    next: Fleet,
    name: Seq<char>,
    now: Moment,
    later: Moment,
    query: Seq<char>,
    asks: Option<u64>,
    spawns: bool,
    failure: Option<Seq<char>>,
)
    requires
        before.config.servers@.contains_key(name),
        before.children@.contains_key(name),
        due(before.config, name, before.children@[name], now),
        after.config == before.config,
        after.cache == before.cache,
        after.children@ == spared(before.config, before.children@, now),
        begun(after, next, name, later, asks, spawns, failure),
    ensures
        spawns && asks is None && failure is None,
        search_hits(after.config, known_rows(after.cache.rows()), query) == search_hits(
            before.config,
            known_rows(before.cache.rows()),
            query,
        ),
        not_indexed(after.config.servers.rows(), after.cache@) == not_indexed(
            before.config.servers.rows(),
            before.cache@,
        ),
{
}

/// A server that was dropped is not forgotten either.
pub proof fn law_dropped_is_not_forgotten(
    before: Fleet,
    after: Fleet,
    next: Fleet,
    name: Seq<char>,
    later: Moment,
    query: Seq<char>,
    asks: Option<u64>,
    spawns: bool,
    failure: Option<Seq<char>>,
)
    requires
        before.config.servers@.contains_key(name),
        after.config == before.config,
        after.cache == before.cache,
        after.children@ == before.children@.remove(name),
        begun(after, next, name, later, asks, spawns, failure),
    ensures
        spawns && asks is None && failure is None,
        search_hits(after.config, known_rows(after.cache.rows()), query) == search_hits(
            before.config,
            known_rows(before.cache.rows()),
            query,
        ),
        not_indexed(after.config.servers.rows(), after.cache@) == not_indexed(
            before.config.servers.rows(),
            before.cache@,
        ),
{
}

proof fn lemma_server_hits_ignore_case(
    config: Config,
    server: Seq<char>,
    tools: Seq<ToolView>,
    a: Seq<char>,
    b: Seq<char>,
)
    requires
        lowercase(a) == lowercase(b),
    ensures
        server_hits(config, server, tools, a) == server_hits(config, server, tools, b),
    decreases tools.len(),
{
    if tools.len() > 0 {
        lemma_server_hits_ignore_case(config, server, tools.drop_last(), a, b);
    }
}

/// Each configured server is either indexed or reported as not indexed yet,
/// never both.
pub proof fn law_every_server_is_indexed_or_reported(
    rows: Seq<(Seq<char>, ServerSpec)>,
    cache: Map<Seq<char>, Vec<ToolSchema>>,
    name: Seq<char>,
)
    ensures
        not_indexed(rows, cache).contains(name) <==> names_of(rows).contains(name)
            && !cache.contains_key(name),
    decreases rows.len(),
{
    let all = not_indexed(rows, cache);
    let names = names_of(rows);
    if rows.len() > 0 {
        let less = rows.drop_last();
        let rest = not_indexed(less, cache);
        let fewer = names_of(less);
        law_every_server_is_indexed_or_reported(less, cache, name);
        assert(names =~= fewer.push(rows.last().0));
        if rest.contains(name) {
            let k = choose|k: int| 0 <= k < rest.len() && rest[k] == name;
            assert(all[k] == name);
        }
        if fewer.contains(name) {
            let k = choose|k: int| 0 <= k < fewer.len() && fewer[k] == name;
            assert(names[k] == name);
        }
        if name == rows.last().0 {
            assert(names[fewer.len() as int] == name);
            if !cache.contains_key(name) {
                assert(all[rest.len() as int] == name);
            }
        }
        if all.contains(name) {
            let k = choose|k: int| 0 <= k < all.len() && all[k] == name;
            if k < rest.len() {
                assert(rest[k] == name);
            }
        }
        if names.contains(name) {
            let k = choose|k: int| 0 <= k < names.len() && names[k] == name;
            if k < fewer.len() {
                assert(fewer[k] == name);
            }
        }
    }
}

/// Schemas survive a restart, with whatever configuration: a fleet that is
/// opened with the text that another's cache was written as knows the same
/// tools of the same servers, and searches them. Servers count as not indexed
/// by that cache.
pub proof fn law_schemas_survive_restarts(
    fleet: Fleet,
    text: Seq<char>,
    config: Config,
    reopened: Fleet,
    query: Seq<char>,
)
    requires
        persisted(fleet, text),
        all_shallow(known_rows(fleet.cache.rows())),
        opened(config, Some(text), reopened),
        fleet.cache.valid(),
        reopened.cache.valid(),
    ensures
        known_rows(reopened.cache.rows()) == known_rows(fleet.cache.rows()),
        search_hits(config, known_rows(reopened.cache.rows()), query) == search_hits(
            config,
            known_rows(fleet.cache.rows()),
            query,
        ),
        not_indexed(config.servers.rows(), reopened.cache@) == not_indexed(
            config.servers.rows(),
            fleet.cache@,
        ),
{
    let a = fleet.cache.rows();
    let b = reopened.cache.rows();
    assert forall|name: Seq<char>| fleet.cache@.contains_key(name) <==> reopened.cache@.contains_key(
        name,
    ) by {
        assert(known_rows(a).len() == known_rows(b).len());
        if fleet.cache@.contains_key(name) {
            let i = choose|i: int| keyed_at(a, name, i);
            assert(keyed_at(a, name, i));
            assert(known_rows(a)[i].0 == known_rows(b)[i].0);
            assert(keyed_at(b, name, i));
        }
        if reopened.cache@.contains_key(name) {
            let i = choose|i: int| keyed_at(b, name, i);
            assert(keyed_at(b, name, i));
            assert(known_rows(a)[i].0 == known_rows(b)[i].0);
            assert(keyed_at(a, name, i));
        }
    }
    lemma_not_indexed_by_keys(config.servers.rows(), fleet.cache@, reopened.cache@);
}

proof fn lemma_not_indexed_by_keys(
    rows: Seq<(Seq<char>, ServerSpec)>,
    a: Map<Seq<char>, Vec<ToolSchema>>,
    b: Map<Seq<char>, Vec<ToolSchema>>,
)
    requires
        forall|name: Seq<char>| a.contains_key(name) <==> b.contains_key(name),
    ensures
        not_indexed(rows, a) == not_indexed(rows, b),
    decreases rows.len(),
{
    if rows.len() > 0 {
        lemma_not_indexed_by_keys(rows.drop_last(), a, b);
    }
}

/// What a server listed is searchable from then on: where the cache holds the
/// tools of a load, the server counts as indexed, and each of its tools that
/// holds the query is among the hits.
pub proof fn law_loaded_tools_are_searchable(
    fleet: Fleet,
    before: Map<Seq<char>, Vec<ToolSchema>>,
    name: Seq<char>,
    tools: Vec<ToolSchema>,
    k: int,
    query: Seq<char>,
)
    requires
        fleet.cache.valid(),
        fleet.cache@ == before.insert(name, tools),
        0 <= k < tools@.len(),
        found(query, tools@[k]@),
    ensures
        !not_indexed(fleet.config.servers.rows(), fleet.cache@).contains(name),
        search_hits(fleet.config, known_rows(fleet.cache.rows()), query).contains(
            hit_for(fleet.config, name, tools@[k]@),
        ),
{
    let rows = fleet.cache.rows();
    let known = known_rows(rows);
    law_every_server_is_indexed_or_reported(fleet.config.servers.rows(), fleet.cache@, name);
    assert(fleet.cache@.contains_key(name));
    let i = choose|i: int| keyed_at(rows, name, i);
    assert(keyed_at(rows, name, i));
    lemma_keyed_once(rows, i);
    assert(rows[i].1 == tools);
    law_search_finds_exactly_the_matches(fleet.config, known, query);
    assert(known[i].1[k] == tools@[k]@);
}

/// A load touches no other server: dropping the server after any step of it
/// leaves the warm ones as they were without it, and the cache keeps what it
/// holds of the others.
pub proof fn law_load_touches_one_server(
    before: Fleet,
    after: Fleet,
    name: Seq<char>,
    event: LoadEvent,
    now: Moment,
    step: LoadStep,
)
    requires
        load_goes(before, after, name, event, now, step),
    ensures
        after.config == before.config,
        after.children@.remove(name) == before.children@.remove(name),
        after.cache@.remove(name) == before.cache@.remove(name),
{
    assert(after.children@.remove(name) =~= before.children@.remove(name));
    assert(after.cache@.remove(name) =~= before.cache@.remove(name));
}

/// What a load comes to tells what the cache holds: a number of tools means
/// that the cache holds just so many of the server, which are those that the
/// server listed, and an error means that the cache is as it was. Up to its
/// last step a load leaves the cache alone.
pub proof fn law_load_outcome_tells_the_cache(
    before: Fleet,
    after: Fleet,
    name: Seq<char>,
    event: LoadEvent,
    now: Moment,
    step: LoadStep,
)
    requires
        load_goes(before, after, name, event, now, step),
    ensures
        step is Loaded <==> (event matches LoadEvent::Listed { ticket, listed } && listed is Ok),
        step is Loaded ==> {
            &&& after.cache@.contains_key(name)
            &&& event matches LoadEvent::Listed { ticket, listed: Ok(tools) }
            &&& after.cache@[name] == tools
            &&& outcome_of(step, after.cache@, name) == Ok::<usize, Seq<char>>(tools.len())
        },
        step !is Loaded ==> after.cache == before.cache,
        step is Failed ==> outcome_of(step, after.cache@, name) is Err,
{
}

/// What a load of `name` that ended with `last` did, from its first step to
/// its last.
pub open spec fn load_effect(
    before: Fleet,
    after: Fleet,
    name: Seq<char>,
    last: LoadStep,
) -> bool {
    &&& after.config == before.config
    &&& after.children@.remove(name) == before.children@.remove(name)
    &&& after.cache@.remove(name) == before.cache@.remove(name)
    &&& last is Loaded ==> after.cache@.contains_key(name)
    &&& last is Failed ==> after.cache@ == before.cache@
}

/// A load that nothing else comes between touches no other server, and where
/// it fails, it leaves the cache as it was. `fleets` are the fleets before the
/// load and after each of its steps.
pub proof fn law_load_as_a_whole(
    fleets: Seq<Fleet>,
    events: Seq<LoadEvent>,
    moments: Seq<Moment>,
    steps: Seq<LoadStep>,
    name: Seq<char>,
)
    requires
        steps.len() > 0,
        fleets.len() == steps.len() + 1,
        forall|k: int|
            0 <= k < steps.len() ==> load_goes(
                fleets[k],
                fleets[k + 1],
                name,
                events[k],
                moments[k],
                #[trigger] steps[k],
            ),
        forall|k: int| 0 <= k < steps.len() - 1 ==> !(#[trigger] steps[k]).is_last(),
    ensures
        load_effect(fleets.first(), fleets.last(), name, steps.last()),
    decreases steps.len(),
{
    let last = steps.len() - 1;
    assert(load_goes(
        fleets[last],
        fleets[last + 1],
        name,
        events[last],
        moments[last],
        steps[last],
    ));
    law_load_touches_one_server(
        fleets[last],
        fleets[last + 1],
        name,
        events[last],
        moments[last],
        steps[last],
    );
    law_load_outcome_tells_the_cache(
        fleets[last],
        fleets[last + 1],
        name,
        events[last],
        moments[last],
        steps[last],
    );
    if last > 0 {
        let fewer = steps.drop_last();
        let less = fleets.drop_last();
        assert forall|k: int| 0 <= k < fewer.len() implies load_goes(
            less[k],
            less[k + 1],
            name,
            events[k],
            moments[k],
            #[trigger] fewer[k],
        ) by {
            assert(fewer[k] == steps[k]);
        }
        assert forall|k: int| 0 <= k < fewer.len() - 1 implies !(
        #[trigger] fewer[k]).is_last() by {
            assert(fewer[k] == steps[k]);
        }
        law_load_as_a_whole(less, events, moments, fewer, name);
        lemma_unfinished_load_keeps_the_cache(less, events, moments, fewer, name);
    }
}

/// A load leaves the cache alone up to its last step.
proof fn lemma_unfinished_load_keeps_the_cache(
    fleets: Seq<Fleet>,
    events: Seq<LoadEvent>,
    moments: Seq<Moment>,
    steps: Seq<LoadStep>,
    name: Seq<char>,
)
    requires
        fleets.len() == steps.len() + 1,
        forall|k: int|
            0 <= k < steps.len() ==> load_goes(
                fleets[k],
                fleets[k + 1],
                name,
                events[k],
                moments[k],
                #[trigger] steps[k],
            ),
        forall|k: int| 0 <= k < steps.len() ==> (#[trigger] steps[k]) !is Loaded,
    ensures
        fleets.last().cache == fleets.first().cache,
    decreases steps.len(),
{
    if steps.len() > 0 {
        let last = steps.len() - 1;
        let fewer = steps.drop_last();
        let less = fleets.drop_last();
        assert(steps[last] !is Loaded);
        law_load_outcome_tells_the_cache(
            fleets[last],
            fleets[last + 1],
            name,
            events[last],
            moments[last],
            steps[last],
        );
        assert forall|k: int| 0 <= k < fewer.len() implies load_goes(
            less[k],
            less[k + 1],
            name,
            events[k],
            moments[k],
            #[trigger] fewer[k],
        ) by {
            assert(fewer[k] == steps[k]);
        }
        assert forall|k: int| 0 <= k < fewer.len() implies (#[trigger] fewer[k]) !is Loaded by {
            assert(fewer[k] == steps[k]);
        }
        lemma_unfinished_load_keeps_the_cache(less, events, moments, fewer, name);
    }
}

/// A warming pass: the server `names[k]` is loaded, which leads from
/// `fleets[k]` to `loaded[k]` and ends with `last[k]`, and then dropped, which
/// leads to `fleets[k + 1]`.
pub open spec fn warming(
    fleets: Seq<Fleet>,
    loaded: Seq<Fleet>,
    last: Seq<LoadStep>,
    names: Seq<Seq<char>>,
) -> bool {
    &&& fleets.len() == names.len() + 1
    &&& forall|k: int|
        0 <= k < names.len() ==> warming_turn(
            fleets[k],
            loaded[k],
            last[k],
            #[trigger] names[k],
            fleets[k + 1],
        )
}

/// One turn of a warming pass.
pub open spec fn warming_turn(
    before: Fleet,
    loaded: Fleet,
    last: LoadStep,
    name: Seq<char>,
    after: Fleet,
) -> bool {
    &&& last.is_last()
    &&& load_effect(before, loaded, name, last)
    &&& same_but_children(loaded, after)
    &&& after.children@ == loaded.children@.remove(name)
}

/// What a warming pass reports of a server is true when it is over: a number
/// of tools means that the cache holds just so many of the server, and an error
/// means that the cache holds of it what it held before. A server that fails
/// keeps no other from being loaded, and none of them is running afterwards.
pub proof fn law_warming_tells_the_cache(
    fleets: Seq<Fleet>,
    loaded: Seq<Fleet>,
    last: Seq<LoadStep>,
    names: Seq<Seq<char>>,
    i: int,
)
    requires
        warming(fleets, loaded, last, names),
        in_order(names),
        0 <= i < names.len(),
    ensures
        !fleets.last().children@.contains_key(names[i]),
        match outcome_of(last[i], loaded[i].cache@, names[i]) {
            Ok(n) => {
                &&& fleets.last().cache@.contains_key(names[i])
                &&& fleets.last().cache@[names[i]].len() == n
            },
            Err(_) => same_entry(fleets.last().cache@, fleets.first().cache@, names[i]),
        },
{
    let n = names.len() as int;
    lemma_others_are_left_alone(fleets, loaded, last, names, names[i], 0, i);
    lemma_others_are_left_alone(fleets, loaded, last, names, names[i], i + 1, n);
    assert(warming_turn(fleets[i], loaded[i], last[i], names[i], fleets[i + 1]));
}

/// Two caches hold the same of a server.
pub open spec fn same_entry(
    a: Map<Seq<char>, Vec<ToolSchema>>,
    b: Map<Seq<char>, Vec<ToolSchema>>,
    name: Seq<char>,
) -> bool {
    a.contains_key(name) == b.contains_key(name) && (a.contains_key(name) ==> a[name] == b[name])
}

/// The turns of other servers leave a server alone.
proof fn lemma_others_are_left_alone(
    fleets: Seq<Fleet>,
    loaded: Seq<Fleet>,
    last: Seq<LoadStep>,
    names: Seq<Seq<char>>,
    name: Seq<char>,
    from: int,
    to: int,
)
    requires
        warming(fleets, loaded, last, names),
        in_order(names),
        0 <= from <= to <= names.len(),
        (to < names.len() && names[to] == name) || (0 < from && names[from - 1] == name),
    ensures
        same_entry(fleets[to].cache@, fleets[from].cache@, name),
        fleets[to].children@.contains_key(name) == fleets[from].children@.contains_key(name),
    decreases to - from,
{
    if from < to {
        // The turn that is not next to the one of `name` is taken off.
        if 0 < from && names[from - 1] == name {
            let k = to - 1;
            lemma_others_are_left_alone(fleets, loaded, last, names, name, from, k);
            lemma_order_is_total(names[from - 1], names[k]);
            lemma_other_turn(fleets[k], loaded[k], last[k], names[k], fleets[k + 1], name);
        } else {
            lemma_others_are_left_alone(fleets, loaded, last, names, name, from + 1, to);
            lemma_order_is_total(names[from], names[to]);
            lemma_other_turn(
                fleets[from],
                loaded[from],
                last[from],
                names[from],
                fleets[from + 1],
                name,
            );
        }
    }
}

/// The turn of another server leaves a server alone.
proof fn lemma_other_turn(
    before: Fleet,
    loaded: Fleet,
    last: LoadStep,
    other: Seq<char>,
    after: Fleet,
    name: Seq<char>,
)
    requires
        warming_turn(before, loaded, last, other, after),
        other != name,
    ensures
        same_entry(after.cache@, before.cache@, name),
        after.children@.contains_key(name) == before.children@.contains_key(name),
{
    let a = before.cache@;
    let b = loaded.cache@;
    assert(a.remove(other).contains_key(name) == a.contains_key(name));
    assert(b.remove(other).contains_key(name) == b.contains_key(name));
    if a.contains_key(name) {
        assert(a.remove(other)[name] == a[name]);
        assert(b.remove(other)[name] == b[name]);
    }
    assert(before.children@.remove(other).contains_key(name) == before.children@.contains_key(
        name,
    ));
    assert(loaded.children@.remove(other).contains_key(name) == loaded.children@.contains_key(
        name,
    ));
}

} // verus!
