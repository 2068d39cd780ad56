//! The downstream fleet: which servers are warm, how busy they are, when they
//! are reaped, and the tool schemas that were harvested from them.
//!
//! The processes themselves live outside: a method that needs one spawned,
//! asked or stopped says so in its result and is told the outcome.

use crate::config::{Config, ServerSpec};
use crate::fleet_laws::law_reap_takes_exactly_the_idle;
use crate::table::{
    ascending, keyed_at, lemma_keyed_once, lemma_rows_are_told_by_mapping, mapping, Table,
};
use crate::text::{
    contains, copy_text, decimal, has, lowercase, lowered_plainly, number, precedes, str_view,
    text_view, to_lowercase, views,
};
use crate::tool::{
    all_genuine, all_shallow, borrowed_view, cache_read, cache_text, catalogue_view, check_genuine,
    decode_cache, encode_cache, fits, tools_view, ToolSchema, ToolView,
};
use vstd::prelude::*;
use vstd::string::*;

verus! {

/// Reap a warm child after this long unused, unless configured otherwise.
pub const DEFAULT_IDLE_TIMEOUT_SECS: u64 = 600;

/// How many seconds pass between two scans for idle children.
pub const REAP_SCAN_INTERVAL_SECS: u64 = 30;

/// How many seconds a child is given to end by itself once it is cancelled.
pub const CANCEL_TIMEOUT_SECS: u64 = 3;

/// A length of time.
#[derive(Debug, Clone, Copy, PartialEq, Eq, Structural)]
pub struct Span {
    pub nanos: u128,
}

/// A point in time, on a clock that never runs backwards.
#[derive(Debug, Clone, Copy, PartialEq, Eq, Structural)]
pub struct Moment {
    pub nanos: u128,
}

impl Span {
    /// `secs` seconds.
    pub open spec fn seconds(secs: u64) -> Span {
        Span { nanos: (secs * 1_000_000_000) as u128 }
    }

    /// `secs` seconds.
    pub fn from_secs(secs: u64) -> (r: Span)
        ensures
            r == Span::seconds(secs),
            r.nanos == secs * 1_000_000_000,
    {
        Span { nanos: secs as u128 * 1_000_000_000 }
    }
}

impl Moment {
    /// The time from `earlier` to this moment; none where `earlier` is later.
    pub open spec fn after(self, earlier: Moment) -> Span {
        Span {
            nanos: if self.nanos >= earlier.nanos {
                (self.nanos - earlier.nanos) as u128
            } else {
                0
            },
        }
    }

    /// The time from `earlier` to this moment; none where `earlier` is later.
    pub fn duration_since(self, earlier: Moment) -> (r: Span)
        ensures
            r == self.after(earlier),
    {
        Span { nanos: self.nanos.saturating_sub(earlier.nanos) }
    }
}

/// A warm server.
#[derive(Debug, Clone, Copy, PartialEq, Eq, Structural)]
pub struct Child {
    /// Updated on acquire and release; the idle clock reaping measures against.
    pub last_used: Moment,
    /// Requests currently using this child — a child with traffic is never reaped.
    pub inflight: u32,
    /// Tells this child from every other that ever ran, under its name or
    /// another. It is the ticket of the requests that use the child.
    pub generation: u64,
}

/// The downstream fleet: configured MCP servers, spawned lazily on first touch,
/// reaped when idle.
#[derive(Debug)]
pub struct Fleet {
    pub config: Config,
    pub children: Table<Child>,
    /// How many children were spawned so far: the generation of the next one.
    pub spawns: u64,
    /// Tool schemas harvested from each server that was loaded at least once.
    pub cache: Table<Vec<ToolSchema>>,
}

impl Fleet {
    /// No child that is to come has the generation of one that is running.
    pub open spec fn well_formed(self) -> bool {
        all_before(self.children@, self.spawns)
    }
}

/// The generation of each child is below `spawns`.
pub open spec fn all_before(children: Map<Seq<char>, Child>, spawns: u64) -> bool {
    forall|name: Seq<char>|
        children.contains_key(name) ==> (#[trigger] children[name]).generation < spawns
}

/// One line of the list of servers.
#[derive(Debug)]
pub struct ServerStatus {
    pub name: String,
    pub warm: bool,
    pub cached_tools: Option<usize>,
    /// Which account the server acts as.
    pub identity: Option<String>,
    /// How to provision the server.
    pub setup_hint: Option<String>,
}

/// A tool that a search found.
#[derive(Debug)]
pub struct ToolHit {
    pub server: String,
    pub tool: String,
    pub description: String,
    /// Which account the server acts as.
    pub identity: Option<String>,
}

/// What a [`ToolHit`] holds.
pub struct HitView {
    pub server: Seq<char>,
    pub tool: Seq<char>,
    pub description: Seq<char>,
    pub identity: Option<Seq<char>>,
}

impl View for ToolHit {
    type V = HitView;

    open spec fn view(&self) -> HitView {
        HitView {
            server: self.server@,
            tool: self.tool@,
            description: self.description@,
            identity: text_view(self.identity),
        }
    }
}

/// Where the schema cache is kept.
#[derive(Debug)]
pub enum CachePath<P> {
    /// The file that was given.
    Given(P),
    /// `file` in `dir`, under `home`, or under the working directory where
    /// no home is known.
    Under { home: Option<P>, dir: &'static str, file: &'static str },
}

/// `DANGLER_CACHE` where it is set, else `.dangler/cache.json` under
/// `USERPROFILE`, else under `HOME` — schemas survive restarts so search_tools
/// works from a cold start across the whole warmed fleet.
pub fn cache_path<P>(dangler_cache: Option<P>, userprofile: Option<P>, home: Option<P>) -> (r:
    CachePath<P>)
    ensures
        match dangler_cache {
            Some(p) => r == CachePath::Given(p),
            None => {
                &&& r matches CachePath::Under { home: h, dir, file }
                &&& h == (if userprofile is Some {
                    userprofile
                } else {
                    home
                })
                &&& dir@ == ".dangler"@
                &&& file@ == "cache.json"@
            },
        },
{
    match dangler_cache {
        Some(p) => CachePath::Given(p),
        None => CachePath::Under {
            home: match userprofile {
                Some(p) => Some(p),
                None => home,
            },
            dir: ".dangler",
            file: "cache.json",
        },
    }
}

/// A child is reaped where a limit is set, nothing uses it, and it was idle
/// for as long as the limit says.
pub open spec fn reapable(inflight: u32, idle_for: Span, timeout: Option<Span>) -> bool {
    match timeout {
        Some(t) => inflight == 0 && idle_for.nanos >= t.nanos,
        None => false,
    }
}

/// The reap decision. `timeout` of None means never reap.
pub fn should_reap(inflight: u32, idle_for: Span, timeout: Option<Span>) -> (r: bool)
    ensures
        r == reapable(inflight, idle_for, timeout),
{
    match timeout {
        Some(t) => inflight == 0 && idle_for.nanos >= t.nanos,
        None => false,
    }
}

/// The idle limit of a server in seconds: its own, else the global one, else
/// the default.
pub open spec fn idle_secs(config: Config, name: Seq<char>) -> u64 {
    if config.servers@.contains_key(name) && config.servers@[name].idle_timeout_secs is Some {
        config.servers@[name].idle_timeout_secs->0
    } else if config.idle_timeout_secs is Some {
        config.idle_timeout_secs->0
    } else {
        DEFAULT_IDLE_TIMEOUT_SECS
    }
}

/// The idle limit of a server; none where it is never reaped.
pub open spec fn idle_limit(config: Config, name: Seq<char>) -> Option<Span> {
    if idle_secs(config, name) > 0 {
        Some(Span::seconds(idle_secs(config, name)))
    } else {
        None
    }
}

/// The child `name` is to be reaped at `now`.
pub open spec fn due(config: Config, name: Seq<char>, child: Child, now: Moment) -> bool {
    reapable(child.inflight, now.after(child.last_used), idle_limit(config, name))
}

/// The children that a reap pass at `now` leaves.
pub open spec fn spared(config: Config, children: Map<Seq<char>, Child>, now: Moment) -> Map<
    Seq<char>,
    Child,
> {
    Map::new(
        |name: Seq<char>| children.contains_key(name) && !due(config, name, children[name], now),
        |name: Seq<char>| children[name],
    )
}

/// The names of the children that a reap pass at `now` takes.
pub open spec fn reaped(config: Config, rows: Seq<(Seq<char>, Child)>, now: Moment) -> Seq<
    Seq<char>,
>
    decreases rows.len(),
{
    if rows.len() == 0 {
        Seq::empty()
    } else {
        let rest = reaped(config, rows.drop_last(), now);
        if due(config, rows.last().0, rows.last().1, now) {
            rest.push(rows.last().0)
        } else {
            rest
        }
    }
}

/// The children once a request has claimed `name`.
pub open spec fn claimed(children: Map<Seq<char>, Child>, name: Seq<char>, now: Moment) -> Map<
    Seq<char>,
    Child,
> {
    if children.contains_key(name) {
        children.insert(
            name,
            Child {
                last_used: now,
                inflight: (children[name].inflight + 1) as u32,
                ..children[name]
            },
        )
    } else {
        children
    }
}

/// The children once `name` was spawned and claimed by the request that had
/// it spawned.
pub open spec fn warmed(
    children: Map<Seq<char>, Child>,
    name: Seq<char>,
    generation: u64,
    now: Moment,
) -> Map<Seq<char>, Child> {
    children.insert(name, Child { last_used: now, inflight: 1, generation })
}

/// The children once a request has given back the child of `name` that is
/// running.
pub open spec fn returned(children: Map<Seq<char>, Child>, name: Seq<char>, now: Moment) -> Map<
    Seq<char>,
    Child,
> {
    if children.contains_key(name) {
        let busy = children[name].inflight;
        children.insert(
            name,
            Child {
                last_used: now,
                inflight: if busy > 0 {
                    (busy - 1) as u32
                } else {
                    0
                },
                ..children[name]
            },
        )
    } else {
        children
    }
}

/// The children once a request has given back the child that its ticket is
/// for. Where that child is no longer running, another one that runs under its
/// name has nothing to do with the request.
pub open spec fn released(
    children: Map<Seq<char>, Child>,
    name: Seq<char>,
    ticket: u64,
    now: Moment,
) -> Map<Seq<char>, Child> {
    if children.contains_key(name) && children[name].generation == ticket {
        returned(children, name, now)
    } else {
        children
    }
}

/// The rows of the cache, with what the tools hold.
pub open spec fn known_rows(rows: Seq<(Seq<char>, Vec<ToolSchema>)>) -> Seq<
    (Seq<char>, Seq<ToolView>),
> {
    Seq::new(rows.len(), |i: int| (rows[i].0, tools_view(rows[i].1@)))
}

/// The error for a server that is not configured.
pub open spec fn no_server(name: Seq<char>) -> Seq<char> {
    "no server '"@ + name + "' in config"@
}

/// The hint that explains a server that could not be brought up.
pub open spec fn hint_text(spec: ServerSpec) -> Seq<char> {
    match spec.setup_hint {
        Some(hint) => ". "@ + hint@,
        None => Seq::empty(),
    }
}

/// How bringing up a server failed.
#[derive(Debug)]
pub enum SpawnFailure {
    /// The process could not be started.
    Spawn(String),
    /// The process did not answer as an MCP server.
    Handshake(String),
}

/// The error for a server that could not be brought up. The server's setup
/// hint stands at its end.
pub open spec fn spawn_failure(name: Seq<char>, spec: ServerSpec, failure: SpawnFailure) -> Seq<
    char,
> {
    match failure {
        SpawnFailure::Spawn(cause) => "spawning '"@ + name + "' ("@ + spec.command@ + "): "@
            + cause@ + hint_text(spec),
        SpawnFailure::Handshake(cause) => "MCP handshake with '"@ + name + "': "@ + cause@
            + hint_text(spec),
    }
}

/// The error for a server that did not list its tools.
pub open spec fn listing_failure(name: Seq<char>, cause: Seq<char>) -> Seq<char> {
    "listing tools of '"@ + name + "': "@ + cause
}

/// The error for a tool call that failed.
pub open spec fn calling_failure(server: Seq<char>, tool: Seq<char>, cause: Seq<char>) -> Seq<
    char,
> {
    "calling "@ + server + "/"@ + tool + ": "@ + cause
}

/// A server that a request has asked for.
#[derive(Debug, Clone, Copy, PartialEq, Eq, Structural)]
pub enum Acquired {
    /// It is warm, and claimed by the request, which this ticket is for.
    Warm(u64),
    /// It has to be spawned first.
    Cold,
}

/// `fleet` is what is opened with `config` and the text of the cache file.
pub open spec fn opened(config: Config, cache_file: Option<Seq<char>>, fleet: Fleet) -> bool {
    &&& fleet.config == config
    &&& fleet.children@ == Map::<Seq<char>, Child>::empty()
    &&& fleet.spawns == 0
    &&& known_rows(fleet.cache.rows()) == (match cache_file {
        Some(text) => match cache_read(text) {
            Some(rows) => rows,
            None => Seq::empty(),
        },
        None => Seq::empty(),
    })
}

/// `text` is what the cache of `fleet` is written as.
pub open spec fn persisted(fleet: Fleet, text: Seq<char>) -> bool {
    &&& text == cache_text(known_rows(fleet.cache.rows()))
    &&& all_shallow(known_rows(fleet.cache.rows())) ==> cache_read(text) == Some(
        known_rows(fleet.cache.rows()),
    )
}

impl Fleet {
    /// The fleet of `config`, nothing warm, with the tools that were loaded
    /// from `saved`.
    pub fn with_cache(config: Config, saved: Option<Vec<(String, Vec<ToolSchema>)>>) -> (r: Fleet)
        requires
            saved matches Some(rows) ==> ascending(catalogue_view(rows@)),
        ensures
            r.config == config,
            r.children@ == Map::<Seq<char>, Child>::empty(),
            r.spawns == 0,
            r.well_formed(),
            saved matches Some(rows) ==> known_rows(r.cache.rows()) == catalogue_view(rows@),
            saved is None ==> r.cache.rows().len() == 0,
    {
        let mut cache: Table<Vec<ToolSchema>> = Table::new();
        if let Some(rows) = saved {
            let ghost all = rows@;
            let ghost plain = Seq::new(all.len(), |i: int| (all[i].0@, all[i].1));
            let mut left: Vec<(String, Vec<ToolSchema>)> = rows;
            proof {
                assert(ascending(plain)) by {
                    assert forall|i: int, j: int| 0 <= i < j < plain.len() implies
                        precedes(#[trigger] plain[i].0, #[trigger] plain[j].0) by {
                        assert(catalogue_view(all)[i].0 == plain[i].0);
                        assert(catalogue_view(all)[j].0 == plain[j].0);
                    }
                }
                assert(mapping(plain.skip(plain.len() as int)) =~= Map::empty());
            }
            while left.len() > 0
                invariant
                    plain == Seq::new(all.len(), |i: int| (all[i].0@, all[i].1)),
                    ascending(plain),
                    left@.len() <= all.len(),
                    left@ == all.take(left@.len() as int),
                    cache@ == mapping(plain.skip(left@.len() as int)),
                decreases left.len(),
            {
                let ghost n = left@.len() - 1;
                let row: Option<(String, Vec<ToolSchema>)> = left.pop();
                if let Some((name, tools)) = row {
                    proof {
                        assert(all[n] == (name, tools));
                        lemma_one_more(plain, n);
                    }
                    cache.insert(name, tools);
                    assert(left@ =~= all.take(n));
                }
            }
            proof {
                assert(plain.skip(0) =~= plain);
                use_type_invariant(&cache);
                lemma_rows_are_told_by_mapping(cache.rows(), plain);
                assert(known_rows(cache.rows()) =~= catalogue_view(all));
            }
        }
        Fleet { config, children: Table::new(), spawns: 0, cache }
    }

    /// The fleet of `config`, nothing warm, with the tools that the text of
    /// the cache file holds. A file that is missing or cannot be read counts
    /// for nothing.
    pub fn new(config: Config, cache_file: Option<&str>) -> (r: Fleet)
        ensures
            opened(config, str_view(cache_file), r),
            r.well_formed(),
    {
        let saved: Option<Vec<(String, Vec<ToolSchema>)>> = match cache_file {
            Some(text) => decode_cache(text),
            None => None,
        };
        let r = Fleet::with_cache(config, saved);
        assert(r.cache.rows().len() == 0 ==> known_rows(r.cache.rows()) =~= Seq::empty());
        r
    }
}

/// The rows from `n` on stand for what those after `n` stand for, and for row
/// `n`.
proof fn lemma_one_more<V>(rows: Seq<(Seq<char>, V)>, n: int)
    requires
        ascending(rows),
        0 <= n < rows.len(),
    ensures
        mapping(rows.skip(n)) == mapping(rows.skip(n + 1)).insert(rows[n].0, rows[n].1),
{
    let more = rows.skip(n);
    let less = rows.skip(n + 1);
    assert(ascending(more));
    assert(ascending(less));
    assert forall|key: Seq<char>|
        mapping(more).contains_key(key) <==> mapping(less).insert(
            rows[n].0,
            rows[n].1,
        ).contains_key(key) by {
        if mapping(more).contains_key(key) {
            let i = choose|i: int| keyed_at(more, key, i);
            if i > 0 {
                assert(keyed_at(less, key, i - 1));
            }
        }
        if mapping(less).contains_key(key) {
            let i = choose|i: int| keyed_at(less, key, i);
            assert(keyed_at(more, key, i + 1));
        }
        if key == rows[n].0 {
            assert(keyed_at(more, key, 0));
        }
    }
    assert forall|key: Seq<char>| mapping(more).contains_key(key) implies mapping(more)[key]
        == mapping(less).insert(rows[n].0, rows[n].1)[key] by {
        let i = choose|i: int| keyed_at(more, key, i);
        assert(keyed_at(more, key, i));
        lemma_keyed_once(more, i);
        lemma_keyed_once(more, 0);
        if i > 0 {
            assert(keyed_at(less, key, i - 1));
            lemma_keyed_once(less, i - 1);
        }
    }
    assert(mapping(more) =~= mapping(less).insert(rows[n].0, rows[n].1));
}

/// `s` is the line for the server `name` of the fleet.
pub open spec fn is_status(
    s: ServerStatus,
    fleet: Fleet,
    name: Seq<char>,
    spec: ServerSpec,
) -> bool {
    &&& s.name@ == name
    &&& s.warm == fleet.children@.contains_key(name)
    &&& s.cached_tools == (if fleet.cache@.contains_key(name) {
        Some(fleet.cache@[name].len())
    } else {
        None
    })
    &&& text_view(s.identity) == text_view(spec.identity)
    &&& text_view(s.setup_hint) == text_view(spec.setup_hint)
}

/// The account that a server acts as, where the configuration names one.
pub open spec fn identity_of(config: Config, name: Seq<char>) -> Option<Seq<char>> {
    if config.servers@.contains_key(name) {
        text_view(config.servers@[name].identity)
    } else {
        None
    }
}

/// What a tool says of itself; nothing where it has no description.
pub open spec fn description_of(tool: ToolView) -> Seq<char> {
    match tool.description {
        Some(d) => d,
        None => ""@,
    }
}

/// The small-letter query stands in the small-letter name or description.
pub open spec fn answers(query: Seq<char>, name: Seq<char>, description: Seq<char>) -> bool {
    has(name, query) || has(description, query)
}

/// A search for `query` finds `tool`.
pub open spec fn found(query: Seq<char>, tool: ToolView) -> bool {
    answers(lowercase(query), lowercase(tool.name), lowercase(description_of(tool)))
}

/// The tools of one server that a search finds, in the server's order.
pub open spec fn server_hits(
    config: Config,
    server: Seq<char>,
    tools: Seq<ToolView>,
    query: Seq<char>,
) -> Seq<HitView>
    decreases tools.len(),
{
    if tools.len() == 0 {
        Seq::empty()
    } else {
        let rest = server_hits(config, server, tools.drop_last(), query);
        let tool = tools.last();
        if found(query, tool) {
            rest.push(
                HitView {
                    server,
                    tool: tool.name,
                    description: description_of(tool),
                    identity: identity_of(config, server),
                },
            )
        } else {
            rest
        }
    }
}

/// The tools of all servers that a search finds, server by server.
pub open spec fn search_hits(
    config: Config,
    rows: Seq<(Seq<char>, Seq<ToolView>)>,
    query: Seq<char>,
) -> Seq<HitView>
    decreases rows.len(),
{
    if rows.len() == 0 {
        Seq::empty()
    } else {
        search_hits(config, rows.drop_last(), query) + server_hits(
            config,
            rows.last().0,
            rows.last().1,
            query,
        )
    }
}

/// The name and the description of a tool are plain in small letters where
/// they are ASCII.
pub open spec fn tool_lowered_plainly(tool: ToolView) -> bool {
    lowered_plainly(tool.name) && lowered_plainly(description_of(tool))
}

/// So are those of each tool of a list.
pub open spec fn tools_lowered_plainly(tools: Seq<ToolView>) -> bool {
    forall|k: int| 0 <= k < tools.len() ==> tool_lowered_plainly(#[trigger] tools[k])
}

/// So are those of each tool of each server.
pub open spec fn all_lowered_plainly(rows: Seq<(Seq<char>, Seq<ToolView>)>) -> bool {
    forall|i: int| 0 <= i < rows.len() ==> tools_lowered_plainly((#[trigger] rows[i]).1)
}

/// What a list of hits holds.
pub open spec fn hits_view(hits: Seq<ToolHit>) -> Seq<HitView> {
    Seq::new(hits.len(), |i: int| hits[i]@)
}

/// The configured servers whose tools are not known, in the order of their
/// names.
pub open spec fn not_indexed(
    rows: Seq<(Seq<char>, ServerSpec)>,
    cache: Map<Seq<char>, Vec<ToolSchema>>,
) -> Seq<Seq<char>>
    decreases rows.len(),
{
    if rows.len() == 0 {
        Seq::empty()
    } else {
        let rest = not_indexed(rows.drop_last(), cache);
        if cache.contains_key(rows.last().0) {
            rest
        } else {
            rest.push(rows.last().0)
        }
    }
}

/// Whether the small-letter query stands in the small-letter name or
/// description.
pub fn matches_query(query: &str, name: &str, description: &str) -> (r: bool)
    ensures
        r == answers(query@, name@, description@),
{
    contains(name, query) || contains(description, query)
}

impl Fleet {
    /// How the server `name` is launched.
    pub fn spec(&self, name: &str) -> (r: Result<&ServerSpec, String>)
        ensures
            r is Ok <==> self.config.servers@.contains_key(name@),
            r matches Ok(spec) ==> *spec == self.config.servers@[name@],
            r matches Err(e) ==> e@ == no_server(name@),
    {
        match self.config.servers.get(name) {
            Some(spec) => Ok(spec),
            None => {
                let mut e: String = "no server '".to_owned();
                e.append(name);
                e.append("' in config");
                Err(e)
            },
        }
    }

    /// Effective idle timeout for a server: per-server override, else global,
    /// else the default. 0 anywhere means "never reap".
    pub fn idle_timeout(&self, name: &str) -> (r: Option<Span>)
        ensures
            r == idle_limit(self.config, name@),
    {
        let own: Option<u64> = match self.config.servers.get(name) {
            Some(spec) => spec.idle_timeout_secs,
            None => None,
        };
        let secs: u64 = match own {
            Some(s) => s,
            None => match self.config.idle_timeout_secs {
                Some(s) => s,
                None => DEFAULT_IDLE_TIMEOUT_SECS,
            },
        };
        if secs > 0 {
            Some(Span::from_secs(secs))
        } else {
            None
        }
    }

    /// One line per configured server, in the order of the names.
    pub fn statuses(&self) -> (r: Vec<ServerStatus>)
        ensures
            r@.len() == self.config.servers.rows().len(),
            forall|i: int|
                0 <= i < r@.len() ==> is_status(
                    #[trigger] r@[i],
                    *self,
                    self.config.servers.rows()[i].0,
                    self.config.servers.rows()[i].1,
                ),
    {
        let mut out: Vec<ServerStatus> = Vec::new();
        let n: usize = self.config.servers.len();
        let mut i: usize = 0;
        while i < n
            invariant
                n == self.config.servers.rows().len(),
                i <= n,
                out@.len() == i,
                forall|k: int|
                    0 <= k < i ==> is_status(
                        #[trigger] out@[k],
                        *self,
                        self.config.servers.rows()[k].0,
                        self.config.servers.rows()[k].1,
                    ),
            decreases n - i,
        {
            let name: &String = self.config.servers.key(i);
            let spec: &ServerSpec = self.config.servers.value(i);
            out.push(
                ServerStatus {
                    name: name.clone(),
                    warm: self.children.contains_key(name.as_str()),
                    cached_tools: match self.cache.get(name.as_str()) {
                        Some(tools) => Some(tools.len()),
                        None => None,
                    },
                    identity: copy_text(&spec.identity),
                    setup_hint: copy_text(&spec.setup_hint),
                },
            );
            i = i + 1;
        }
        out
    }

    /// Claims the server `name` for a request. A server that is cold has to be
    /// spawned first, which [`Fleet::spawned`] is told of. Every claim is paired
    /// with a release of its ticket.
    pub fn acquire(&mut self, name: &str, now: Moment) -> (r: Result<Acquired, String>)
        requires
            old(self).config.servers@.contains_key(name@) && old(self).children@.contains_key(name@)
                ==> old(self).children@[name@].inflight < u32::MAX,
        ensures
            final(self).config == old(self).config,
            final(self).cache == old(self).cache,
            final(self).spawns == old(self).spawns,
            r is Err <==> !old(self).config.servers@.contains_key(name@),
            r matches Err(e) ==> e@ == no_server(name@),
            r matches Ok(a) ==> a == (if old(self).children@.contains_key(name@) {
                Acquired::Warm(old(self).children@[name@].generation)
            } else {
                Acquired::Cold
            }),
            r is Ok ==> final(self).children@ == claimed(old(self).children@, name@, now),
            r is Err ==> final(self).children == old(self).children,
            old(self).well_formed() ==> final(self).well_formed(),
    {
        if let Err(e) = self.spec(name) {
            return Err(e);
        }
        let child: Child = match self.children.get(name) {
            Some(child) => *child,
            None => {
                return Ok(Acquired::Cold);
            },
        };
        self.children.insert(
            name.to_owned(),
            Child { last_used: now, inflight: child.inflight + 1, generation: child.generation },
        );
        Ok(Acquired::Warm(child.generation))
    }

    /// Takes note of how bringing up the server `name`, which was cold, went.
    /// A server that is up is warm, and claimed by the request that had it
    /// spawned. Returns the ticket of that request.
    pub fn spawned(&mut self, name: &str, outcome: Result<(), SpawnFailure>, now: Moment) -> (r:
        Result<u64, String>)
        requires
            old(self).config.servers@.contains_key(name@),
            outcome is Ok ==> can_warm(*old(self), name@),
        ensures
            final(self).config == old(self).config,
            final(self).cache == old(self).cache,
            outcome is Ok ==> {
                &&& r == Ok::<u64, String>(old(self).spawns)
                &&& final(self).spawns == old(self).spawns + 1
                &&& final(self).children@ == warmed(
                    old(self).children@,
                    name@,
                    old(self).spawns,
                    now,
                )
            },
            outcome matches Err(f) ==> {
                &&& r matches Err(e)
                &&& e@ == spawn_failure(name@, old(self).config.servers@[name@], f)
                &&& final(self).spawns == old(self).spawns
                &&& final(self).children == old(self).children
            },
            old(self).well_formed() ==> final(self).well_formed(),
    {
        match outcome {
            Ok(()) => {
                let generation: u64 = self.spawns;
                self.children.insert(
                    name.to_owned(),
                    Child { last_used: now, inflight: 1, generation },
                );
                self.spawns = generation + 1;
                Ok(generation)
            },
            Err(failure) => {
                let mut e: String = String::new();
                let mut hint: String = String::new();
                if let Some(spec) = self.config.servers.get(name) {
                    if let Some(h) = &spec.setup_hint {
                        hint.append(". ");
                        hint.append(h.as_str());
                    }
                    assert(hint@ =~= hint_text(*spec));
                    match failure {
                        SpawnFailure::Spawn(cause) => {
                            e.append("spawning '");
                            e.append(name);
                            e.append("' (");
                            e.append(spec.command.as_str());
                            e.append("): ");
                            e.append(cause.as_str());
                            e.append(hint.as_str());
                        },
                        SpawnFailure::Handshake(cause) => {
                            e.append("MCP handshake with '");
                            e.append(name);
                            e.append("': ");
                            e.append(cause.as_str());
                            e.append(hint.as_str());
                        },
                    }
                    assert(e@ =~= spawn_failure(name@, *spec, failure));
                }
                Err(e)
            },
        }
    }

    /// Gives back the child of the server `name` that the ticket is for. Where
    /// that child was dropped in the meantime there is nothing to give back,
    /// though another may run under its name by now.
    pub fn release(&mut self, name: &str, ticket: u64, now: Moment)
        ensures
            final(self).config == old(self).config,
            final(self).cache == old(self).cache,
            final(self).spawns == old(self).spawns,
            final(self).children@ == released(old(self).children@, name@, ticket, now),
            old(self).well_formed() ==> final(self).well_formed(),
    {
        let child: Option<Child> = match self.children.get(name) {
            Some(child) => Some(*child),
            None => None,
        };
        if let Some(child) = child {
            if child.generation == ticket {
                self.children.insert(
                    name.to_owned(),
                    Child {
                        last_used: now,
                        inflight: child.inflight.saturating_sub(1),
                        generation: child.generation,
                    },
                );
            }
        }
    }

    /// Takes the server `name` out of the warm ones. Returns false if it wasn't
    /// running. Manual and unconditional — in-flight requests to it will fail.
    pub fn drop_server(&mut self, name: &str) -> (r: bool)
        ensures
            final(self).config == old(self).config,
            final(self).cache == old(self).cache,
            final(self).spawns == old(self).spawns,
            r == old(self).children@.contains_key(name@),
            final(self).children@ == old(self).children@.remove(name@),
            old(self).well_formed() ==> final(self).well_formed(),
    {
        self.children.remove(name).is_some()
    }

    /// One reap pass: takes every idle child out of the warm ones. Returns the
    /// reaped names, whose processes are to be stopped.
    pub fn reap_idle(&mut self, now: Moment) -> (r: Vec<String>)
        ensures
            final(self).config == old(self).config,
            final(self).cache == old(self).cache,
            final(self).spawns == old(self).spawns,
            final(self).children@ == spared(old(self).config, old(self).children@, now),
            views(r@) == reaped(old(self).config, old(self).children.rows(), now),
            old(self).well_formed() ==> final(self).well_formed(),
    {
        let ghost config = self.config;
        let ghost children = self.children@;
        let ghost rows = self.children.rows();
        let mut names: Vec<String> = Vec::new();
        let n: usize = self.children.len();
        let mut i: usize = 0;
        assert(rows.take(0) =~= Seq::empty());
        assert(views(names@) =~= Seq::empty());
        while i < n
            invariant
                rows == self.children.rows(),
                config == self.config,
                n == rows.len(),
                i <= n,
                views(names@) == reaped(config, rows.take(i as int), now),
            decreases n - i,
        {
            let name: &String = self.children.key(i);
            let child: Child = *self.children.value(i);
            let idle_for: Span = now.duration_since(child.last_used);
            let timeout: Option<Span> = self.idle_timeout(name.as_str());
            assert(rows.take(i + 1).drop_last() =~= rows.take(i as int));
            let ghost held = views(names@);
            if should_reap(child.inflight, idle_for, timeout) {
                names.push(name.clone());
                assert(views(names@) =~= held.push(name@));
            }
            i = i + 1;
        }
        assert(rows.take(n as int) =~= rows);
        let ghost list = views(names@);
        let mut k: usize = 0;
        assert(children =~= children.remove_keys(list.take(0).to_set()));
        while k < names.len()
            invariant
                k <= names@.len(),
                list == views(names@),
                self.config == config,
                self.cache == old(self).cache,
                self.spawns == old(self).spawns,
                self.children@ == children.remove_keys(list.take(k as int).to_set()),
            decreases names.len() - k,
        {
            self.children.remove(names[k].as_str());
            proof {
                assert(list.take(k + 1) =~= list.take(k as int).push(list[k as int]));
                lemma_push_to_set(list.take(k as int), list[k as int]);
                assert(children.remove_keys(list.take(k + 1).to_set()) =~= children.remove_keys(
                    list.take(k as int).to_set(),
                ).remove(list[k as int]));
            }
            k = k + 1;
        }
        proof {
            assert(list.take(k as int) =~= list);
            assert forall|name: Seq<char>|
                children.remove_keys(list.to_set()).contains_key(name) <==> spared(
                    config,
                    children,
                    now,
                ).contains_key(name) by {
                law_reap_takes_exactly_the_idle(config, rows, now, name);
            }
            assert(self.children@ =~= spared(config, children, now));
        }
        names
    }

    /// Keeps the tools of the server `name`, in place of what was known of it.
    pub fn index(&mut self, name: &str, tools: Vec<ToolSchema>)
        ensures
            final(self).config == old(self).config,
            final(self).children == old(self).children,
            final(self).spawns == old(self).spawns,
            final(self).cache@ == old(self).cache@.insert(name@, tools),
    {
        self.cache.insert(name.to_owned(), tools);
    }

    /// Substring search over cached schemas (warm a server with `load` to index it).
    pub fn search(&self, query: &str) -> (r: Vec<ToolHit>)
        ensures
            hits_view(r@) == search_hits(self.config, known_rows(self.cache.rows()), query@),
            lowered_plainly(query@),
            all_lowered_plainly(known_rows(self.cache.rows())),
    {
        let q: String = to_lowercase(query);
        let ghost rows = known_rows(self.cache.rows());
        let mut hits: Vec<ToolHit> = Vec::new();
        let n: usize = self.cache.len();
        let mut i: usize = 0;
        assert(rows.take(0) =~= Seq::empty());
        assert(hits_view(hits@) =~= Seq::empty());
        while i < n
            invariant
                q@ == lowercase(query@),
                rows == known_rows(self.cache.rows()),
                n == rows.len(),
                i <= n,
                hits_view(hits@) == search_hits(self.config, rows.take(i as int), query@),
                forall|j: int| 0 <= j < i ==> tools_lowered_plainly((#[trigger] rows[j]).1),
            decreases n - i,
        {
            let server: &String = self.cache.key(i);
            let tools: &Vec<ToolSchema> = self.cache.value(i);
            let ghost before = hits_view(hits@);
            let ghost listed = tools_view(tools@);
            let mut k: usize = 0;
            assert(listed.take(0) =~= Seq::empty());
            assert(before + Seq::empty() =~= before);
            while k < tools.len()
                invariant
                    q@ == lowercase(query@),
                    k <= tools@.len(),
                    listed == tools_view(tools@),
                    hits_view(hits@) == before + server_hits(
                        self.config,
                        server@,
                        listed.take(k as int),
                        query@,
                    ),
                    forall|j: int| 0 <= j < k ==> tool_lowered_plainly(#[trigger] listed[j]),
                decreases tools.len() - k,
            {
                let tool: &ToolSchema = &tools[k];
                let description: String = match tool.description() {
                    Some(d) => d.clone(),
                    None => "".to_owned(),
                };
                let small_name: String = to_lowercase(tool.name().as_str());
                let small_description: String = to_lowercase(description.as_str());
                let ghost held = hits_view(hits@);
                proof {
                    assert(listed.take(k + 1).drop_last() =~= listed.take(k as int));
                    assert(listed.take(k + 1).last() == tool@);
                    assert(tool_lowered_plainly(listed[k as int]));
                }
                if matches_query(q.as_str(), small_name.as_str(), small_description.as_str()) {
                    let identity: Option<String> = match self.config.servers.get(server.as_str()) {
                        Some(spec) => copy_text(&spec.identity),
                        None => None,
                    };
                    let hit = ToolHit {
                        server: server.clone(),
                        tool: tool.name().clone(),
                        description,
                        identity,
                    };
                    let ghost one = hit@;
                    hits.push(hit);
                    proof {
                        assert(hits_view(hits@) =~= held.push(one));
                        assert(hits_view(hits@) =~= before + server_hits(
                            self.config,
                            server@,
                            listed.take(k + 1),
                            query@,
                        ));
                    }
                }
                k = k + 1;
            }
            proof {
                assert(listed.take(k as int) =~= listed);
                assert(rows.take(i + 1).drop_last() =~= rows.take(i as int));
                assert(rows.take(i + 1).last() == (server@, listed));
                assert(tools_lowered_plainly(rows[i as int].1));
            }
            i = i + 1;
        }
        assert(rows.take(n as int) =~= rows);
        hits
    }

    /// Servers that have never been loaded (so search can say what it couldn't see).
    pub fn unindexed(&self) -> (r: Vec<String>)
        ensures
            views(r@) == not_indexed(self.config.servers.rows(), self.cache@),
    {
        let ghost rows = self.config.servers.rows();
        let mut names: Vec<String> = Vec::new();
        let n: usize = self.config.servers.len();
        let mut i: usize = 0;
        assert(rows.take(0) =~= Seq::empty());
        assert(views(names@) =~= Seq::empty());
        while i < n
            invariant
                rows == self.config.servers.rows(),
                n == rows.len(),
                i <= n,
                views(names@) == not_indexed(rows.take(i as int), self.cache@),
            decreases n - i,
        {
            let name: &String = self.config.servers.key(i);
            assert(rows.take(i + 1).drop_last() =~= rows.take(i as int));
            let ghost held = views(names@);
            if !self.cache.contains_key(name.as_str()) {
                names.push(name.clone());
                assert(views(names@) =~= held.push(name@));
            }
            i = i + 1;
        }
        assert(rows.take(n as int) =~= rows);
        names
    }

    /// The text of the cache file.
    pub fn persist_cache(&self) -> (r: String)
        ensures
            persisted(*self, r@),
    {
        let ghost rows = self.cache.rows();
        let mut out: Vec<(&String, &Vec<ToolSchema>)> = Vec::new();
        let n: usize = self.cache.len();
        let mut i: usize = 0;
        while i < n
            invariant
                rows == self.cache.rows(),
                n == rows.len(),
                i <= n,
                out@.len() == i,
                forall|k: int|
                    0 <= k < i ==> (#[trigger] out@[k]).0@ == rows[k].0 && *out@[k].1 == rows[k].1,
                forall|a: int, b: int|
                    0 <= a < i && 0 <= b < rows[a].1@.len() ==> (
                    #[trigger] rows[a].1@[b])@.genuine(),
            decreases n - i,
        {
            let tools: &Vec<ToolSchema> = self.cache.value(i);
            let mut k: usize = 0;
            while k < tools.len()
                invariant
                    k <= tools@.len(),
                    forall|b: int| 0 <= b < k ==> (#[trigger] tools@[b])@.genuine(),
                decreases tools.len() - k,
            {
                check_genuine(&tools[k]);
                k = k + 1;
            }
            out.push((self.cache.key(i), tools));
            i = i + 1;
        }
        proof {
            let known = known_rows(rows);
            assert(borrowed_view(out@) =~= known);
            assert(all_genuine(known)) by {
                assert forall|a: int, b: int|
                    0 <= a < known.len() && 0 <= b < known[a].1.len() implies (
                #[trigger] known[a].1[b]).genuine() by {
                    assert(rows[a].1@[b]@.genuine());
                }
            }
            use_type_invariant(&self.cache);
            assert(ascending(known)) by {
                assert forall|a: int, b: int| 0 <= a < b < known.len() implies
                    precedes(#[trigger] known[a].0, #[trigger] known[b].0) by {
                    assert(precedes(rows[a].0, rows[b].0));
                }
            }
        }
        encode_cache(&out)
    }
}

/// What happened to a load of a server's tools.
#[derive(Debug)]
pub enum LoadEvent {
    /// The load was asked for.
    Begin,
    /// The server was spawned, or could not be.
    Spawned(Result<(), SpawnFailure>),
    /// The server that the ticket is for listed its tools, or failed to.
    Listed { ticket: u64, listed: Result<Vec<ToolSchema>, String> },
}

/// What a load of a server's tools does next.
#[derive(Debug)]
pub enum LoadStep {
    /// Spawn the server.
    Spawn,
    /// Have the server list all its tools.
    List { ticket: u64 },
    /// The tools are in the cache, which is to be persisted.
    Loaded,
    /// The load is over.
    Failed(String),
}

/// What a downstream tool is called with: its name, and the arguments where
/// there are any.
#[derive(Debug)]
pub struct ToolRequest<A> {
    pub tool: String,
    pub arguments: Option<A>,
}

/// What happened to a call of a downstream tool.
#[derive(Debug)]
pub enum CallEvent<R> {
    /// The call was asked for.
    Begin,
    /// The server was spawned, or could not be.
    Spawned(Result<(), SpawnFailure>),
    /// The server that the ticket is for answered, or the call failed.
    Answered { ticket: u64, answer: Result<R, String> },
}

/// What a call of a downstream tool does next.
#[derive(Debug)]
pub enum CallStep<'a, A, R> {
    /// Spawn the server.
    Spawn,
    /// Call the server with just this.
    Call { ticket: u64, request: &'a ToolRequest<A> },
    /// Relay the server's answer.
    Relay(R),
    /// The call is over.
    Failed(String),
}

/// Nothing but the children may differ between the two fleets.
pub open spec fn same_but_children(a: Fleet, b: Fleet) -> bool {
    a.config == b.config && a.cache == b.cache && a.spawns == b.spawns
}

/// A request can claim the server: there is room for one more.
pub open spec fn has_room(fleet: Fleet, name: Seq<char>) -> bool {
    fleet.config.servers@.contains_key(name) && fleet.children@.contains_key(name)
        ==> fleet.children@[name].inflight < u32::MAX
}

/// A child of the server can come up: none is running, and there is a
/// generation for it.
pub open spec fn can_warm(fleet: Fleet, name: Seq<char>) -> bool {
    !fleet.children@.contains_key(name) && fleet.spawns < u64::MAX
}

/// A request that begins with `before` goes on with `after`: an unknown server
/// fails it, a warm one is claimed and asked under the ticket `ask`, a cold one
/// is to be spawned.
pub open spec fn begun(
    before: Fleet,
    after: Fleet,
    name: Seq<char>,
    now: Moment,
    ask: Option<u64>,
    spawn: bool,
    failure: Option<Seq<char>>,
) -> bool {
    &&& same_but_children(before, after)
    &&& failure == (if before.config.servers@.contains_key(name) {
        None
    } else {
        Some(no_server(name))
    })
    &&& ask == (if failure is None && before.children@.contains_key(name) {
        Some(before.children@[name].generation)
    } else {
        None
    })
    &&& spawn == (failure is None && !before.children@.contains_key(name))
    &&& after.children@ == (if ask is Some {
        claimed(before.children@, name, now)
    } else {
        before.children@
    })
}

/// A request whose server was to be spawned goes on with `after`: a server
/// that is up is warm, claimed and asked under the ticket `ask`, one that is
/// not fails the request.
pub open spec fn brought_up(
    before: Fleet,
    after: Fleet,
    name: Seq<char>,
    outcome: Result<(), SpawnFailure>,
    now: Moment,
    ask: Option<u64>,
    failure: Option<Seq<char>>,
) -> bool {
    &&& before.config == after.config
    &&& before.cache == after.cache
    &&& match outcome {
        Ok(()) => {
            &&& ask == Some(before.spawns)
            &&& failure is None
            &&& after.spawns == before.spawns + 1
            &&& after.children@ == warmed(before.children@, name, before.spawns, now)
        },
        Err(f) => {
            &&& ask is None
            &&& failure == Some(spawn_failure(name, before.config.servers@[name], f))
            &&& after.spawns == before.spawns
            &&& after.children@ == before.children@
        },
    }
}

impl LoadStep {
    /// The ticket, where the server is asked.
    pub open spec fn ticket(self) -> Option<u64> {
        match self {
            LoadStep::List { ticket } => Some(ticket),
            _ => None,
        }
    }

    /// The error, where the load is over.
    pub open spec fn failure(self) -> Option<Seq<char>> {
        match self {
            LoadStep::Failed(e) => Some(e@),
            _ => None,
        }
    }

    /// The load is over.
    pub open spec fn is_last(self) -> bool {
        self is Loaded || self is Failed
    }
}

impl<'a, A, R> CallStep<'a, A, R> {
    /// The ticket, where the server is asked.
    pub open spec fn ticket(self) -> Option<u64> {
        match self {
            CallStep::Call { ticket, request } => Some(ticket),
            _ => None,
        }
    }

    /// The error, where the call is over.
    pub open spec fn failure(self) -> Option<Seq<char>> {
        match self {
            CallStep::Failed(e) => Some(e@),
            _ => None,
        }
    }
}

/// A load of the server `name` goes from `before` to `after` with `step`.
pub open spec fn load_goes(
    before: Fleet,
    after: Fleet,
    name: Seq<char>,
    event: LoadEvent,
    now: Moment,
    step: LoadStep,
) -> bool {
    match event {
        LoadEvent::Begin => step !is Loaded && begun(
            before,
            after,
            name,
            now,
            step.ticket(),
            step is Spawn,
            step.failure(),
        ),
        LoadEvent::Spawned(outcome) => step !is Loaded && step !is Spawn && brought_up(
            before,
            after,
            name,
            outcome,
            now,
            step.ticket(),
            step.failure(),
        ),
        LoadEvent::Listed { ticket, listed } => {
            &&& after.config == before.config
            &&& after.spawns == before.spawns
            &&& after.children@ == released(before.children@, name, ticket, now)
            &&& match listed {
                Ok(tools) => step is Loaded && after.cache@ == before.cache@.insert(name, tools),
                Err(cause) => {
                    &&& step matches LoadStep::Failed(e)
                    &&& e@ == listing_failure(name, cause@)
                    &&& after.cache == before.cache
                },
            }
        },
    }
}

/// A call of a tool of `server` goes from `before` to `after` with `step`.
pub open spec fn call_goes<A, R>(
    before: Fleet,
    after: Fleet,
    server: Seq<char>,
    request: ToolRequest<A>,
    event: CallEvent<R>,
    now: Moment,
    step: CallStep<'_, A, R>,
) -> bool {
    &&& step matches CallStep::Call { ticket, request: sent } ==> *sent == request
    &&& match event {
        CallEvent::Begin => step !is Relay && begun(
            before,
            after,
            server,
            now,
            step.ticket(),
            step is Spawn,
            step.failure(),
        ),
        CallEvent::Spawned(outcome) => step !is Relay && step !is Spawn && brought_up(
            before,
            after,
            server,
            outcome,
            now,
            step.ticket(),
            step.failure(),
        ),
        CallEvent::Answered { ticket, answer } => {
            &&& same_but_children(before, after)
            &&& after.children@ == released(before.children@, server, ticket, now)
            &&& match answer {
                Ok(a) => step == CallStep::<'_, A, R>::Relay(a),
                Err(cause) => step matches CallStep::Failed(e) && e@ == calling_failure(
                    server,
                    request.tool@,
                    cause@,
                ),
            }
        },
    }
}

impl Fleet {
    /// Spawn if needed, harvest the full tool list, and cache it: one step,
    /// from what happened to what is to be done. The server is given back
    /// whether or not it listed its tools.
    pub fn load(&mut self, name: &str, event: LoadEvent, now: Moment) -> (r: LoadStep)
        requires
            event is Begin ==> has_room(*old(self), name@),
            event is Spawned ==> old(self).config.servers@.contains_key(name@),
            event matches LoadEvent::Spawned(Ok(())) ==> can_warm(*old(self), name@),
        ensures
            load_goes(*old(self), *final(self), name@, event, now, r),
            old(self).well_formed() ==> final(self).well_formed(),
    {
        match event {
            LoadEvent::Begin => match self.acquire(name, now) {
                Ok(Acquired::Warm(ticket)) => LoadStep::List { ticket },
                Ok(Acquired::Cold) => LoadStep::Spawn,
                Err(e) => LoadStep::Failed(e),
            },
            LoadEvent::Spawned(outcome) => match self.spawned(name, outcome, now) {
                Ok(ticket) => LoadStep::List { ticket },
                Err(e) => LoadStep::Failed(e),
            },
            LoadEvent::Listed { ticket, listed } => {
                self.release(name, ticket, now);
                match listed {
                    Ok(tools) => {
                        self.index(name, tools);
                        LoadStep::Loaded
                    },
                    Err(cause) => {
                        let mut e: String = "listing tools of '".to_owned();
                        e.append(name);
                        e.append("': ");
                        e.append(cause.as_str());
                        LoadStep::Failed(e)
                    },
                }
            },
        }
    }

    /// Spawn if needed and call a tool: one step, from what happened to what
    /// is to be done. The tool gets just what the request says, its answer is
    /// relayed as it came, and the server is given back whether or not the call
    /// failed.
    pub fn call<'a, A, R>(
        &mut self,
        server: &str,
        request: &'a ToolRequest<A>,
        event: CallEvent<R>,
        now: Moment,
    ) -> (r: CallStep<'a, A, R>)
        requires
            event is Begin ==> has_room(*old(self), server@),
            event is Spawned ==> old(self).config.servers@.contains_key(server@),
            event matches CallEvent::Spawned(Ok(())) ==> can_warm(*old(self), server@),
        ensures
            call_goes(*old(self), *final(self), server@, *request, event, now, r),
            old(self).well_formed() ==> final(self).well_formed(),
    {
        match event {
            CallEvent::Begin => match self.acquire(server, now) {
                Ok(Acquired::Warm(ticket)) => CallStep::Call { ticket, request },
                Ok(Acquired::Cold) => CallStep::Spawn,
                Err(e) => CallStep::Failed(e),
            },
            CallEvent::Spawned(outcome) => match self.spawned(server, outcome, now) {
                Ok(ticket) => CallStep::Call { ticket, request },
                Err(e) => CallStep::Failed(e),
            },
            CallEvent::Answered { ticket, answer } => {
                self.release(server, ticket, now);
                match answer {
                    Ok(a) => CallStep::Relay(a),
                    Err(cause) => {
                        let mut e: String = "calling ".to_owned();
                        e.append(server);
                        e.append("/");
                        e.append(request.tool.as_str());
                        e.append(": ");
                        e.append(cause.as_str());
                        CallStep::Failed(e)
                    },
                }
            },
        }
    }

    /// How many requests use the server `name`.
    pub fn inflight(&self, name: &str) -> (r: u32)
        ensures
            r == (if self.children@.contains_key(name@) {
                self.children@[name@].inflight
            } else {
                0
            }),
    {
        match self.children.get(name) {
            Some(child) => child.inflight,
            None => 0,
        }
    }

    /// What a load that ended with `last` came to: how many tools of the server
    /// were cached, or the error.
    pub fn load_outcome(&self, name: &str, last: LoadStep) -> (r: Result<usize, String>)
        requires
            last.is_last(),
            last is Loaded ==> self.cache@.contains_key(name@),
        ensures
            load_view(r) == outcome_of(last, self.cache@, name@),
    {
        match last {
            LoadStep::Failed(e) => Err(e),
            _ => match self.cache.get(name) {
                Some(tools) => Ok(tools.len()),
                None => Ok(0),
            },
        }
    }

    /// Whether the cache file, written now, can be read back: no schema is
    /// nested deeper than its reader takes.
    pub fn cache_is_shallow(&self) -> (r: bool)
        ensures
            r == all_shallow(known_rows(self.cache.rows())),
    {
        let ghost rows = known_rows(self.cache.rows());
        let n: usize = self.cache.len();
        let mut i: usize = 0;
        while i < n
            invariant
                rows == known_rows(self.cache.rows()),
                n == rows.len(),
                i <= n,
                forall|a: int, b: int|
                    0 <= a < i && 0 <= b < rows[a].1.len() ==> fits(
                        (#[trigger] rows[a].1[b]).json,
                        125,
                    ),
            decreases n - i,
        {
            let tools: &Vec<ToolSchema> = self.cache.value(i);
            assert(rows[i as int].1 == tools_view(tools@));
            let mut k: usize = 0;
            while k < tools.len()
                invariant
                    rows == known_rows(self.cache.rows()),
                    i < rows.len(),
                    rows[i as int].1 == tools_view(tools@),
                    k <= tools@.len(),
                    forall|b: int|
                        0 <= b < k ==> fits((#[trigger] rows[i as int].1[b]).json, 125),
                decreases tools.len() - k,
            {
                if !tools[k].json().fits(125) {
                    assert(!fits(rows[i as int].1[k as int].json, 125));
                    return false;
                }
                k = k + 1;
            }
            i = i + 1;
        }
        true
    }

    /// Pre-loader mode: every configured server is to be loaded and then
    /// reaped, in the order of the names.
    pub fn warm_all(&self) -> (r: Warming)
        ensures
            r.names() == names_of(self.config.servers.rows()),
            in_order(r.names()),
            r.outcomes().len() == 0,
    {
        proof {
            use_type_invariant(&self.config.servers);
        }
        let ghost rows = self.config.servers.rows();
        let mut names: Vec<String> = Vec::new();
        let n: usize = self.config.servers.len();
        let mut i: usize = 0;
        while i < n
            invariant
                rows == self.config.servers.rows(),
                n == rows.len(),
                i <= n,
                names@.len() == i,
                forall|k: int| 0 <= k < i ==> (#[trigger] names@[k])@ == rows[k].0,
            decreases n - i,
        {
            names.push(self.config.servers.key(i).clone());
            i = i + 1;
        }
        let r = Warming { names, results: Vec::new() };
        assert(r.names() =~= names_of(rows));
        r
    }
}

/// What a load that ended with `last` came to: how many tools of the server
/// the cache holds, or the error.
pub open spec fn outcome_of(
    last: LoadStep,
    cache: Map<Seq<char>, Vec<ToolSchema>>,
    name: Seq<char>,
) -> Result<usize, Seq<char>> {
    match last {
        LoadStep::Failed(e) => Err(e@),
        _ => Ok(cache[name].len()),
    }
}

/// Each name precedes those behind it.
pub open spec fn in_order(names: Seq<Seq<char>>) -> bool {
    forall|i: int, j: int|
        0 <= i < j < names.len() ==> precedes(#[trigger] names[i], #[trigger] names[j])
}

/// The keys of `rows`, in order.
pub open spec fn names_of<V>(rows: Seq<(Seq<char>, V)>) -> Seq<Seq<char>> {
    Seq::new(rows.len(), |i: int| rows[i].0)
}

/// A pass over the fleet that loads each server once.
#[derive(Debug)]
pub struct Warming {
    names: Vec<String>,
    results: Vec<(String, Result<usize, String>)>,
}

/// What became of one load: how many tools were cached, or the error.
pub open spec fn load_view(outcome: Result<usize, String>) -> Result<usize, Seq<char>> {
    match outcome {
        Ok(n) => Ok(n),
        Err(e) => Err(e@),
    }
}

impl Warming {
    /// The servers of the pass, in order.
    pub closed spec fn names(&self) -> Seq<Seq<char>> {
        views(self.names@)
    }

    /// What became of each server so far.
    pub closed spec fn outcomes(&self) -> Seq<(Seq<char>, Result<usize, Seq<char>>)> {
        Seq::new(
            self.results@.len(),
            |i: int| (self.results@[i].0@, load_view(self.results@[i].1)),
        )
    }

    /// No more servers than those of the pass, and each under its name.
    #[verifier::type_invariant]
    closed spec fn valid(self) -> bool {
        &&& self.results@.len() <= self.names@.len()
        &&& forall|i: int|
            0 <= i < self.results@.len() ==> (#[trigger] self.results@[i]).0@ == self.names@[i]@
    }

    /// The server to load next; none where the pass is over.
    pub fn next(&self) -> (r: Option<&String>)
        ensures
            self.outcomes().len() <= self.names().len(),
            r is None <==> self.outcomes().len() == self.names().len(),
            r matches Some(name) ==> name@ == self.names()[self.outcomes().len() as int],
    {
        proof {
            use_type_invariant(self);
        }
        if self.results.len() < self.names.len() {
            Some(&self.names[self.results.len()])
        } else {
            None
        }
    }

    /// The server to load next, where the pass is not over.
    pub open spec fn due(&self) -> Seq<char> {
        self.names()[self.outcomes().len() as int]
    }

    /// Takes note of what became of the load, which ended with `last`, and
    /// drops the server, whether or not the load succeeded. Returns whether
    /// there is a process to stop.
    pub fn loaded(&mut self, fleet: &mut Fleet, last: LoadStep) -> (r: bool)
        requires
            old(self).outcomes().len() < old(self).names().len(),
            last.is_last(),
            last is Loaded ==> old(fleet).cache@.contains_key(old(self).due()),
        ensures
            final(self).names() == old(self).names(),
            final(self).outcomes() == old(self).outcomes().push(
                (old(self).due(), outcome_of(last, old(fleet).cache@, old(self).due())),
            ),
            same_but_children(*old(fleet), *final(fleet)),
            r == old(fleet).children@.contains_key(old(self).due()),
            final(fleet).children@ == old(fleet).children@.remove(old(self).due()),
            old(fleet).well_formed() ==> final(fleet).well_formed(),
    {
        proof {
            use_type_invariant(&*self);
        }
        let ghost before = self.outcomes();
        let mut results: Vec<(String, Result<usize, String>)> = Vec::new();
        std::mem::swap(&mut results, &mut self.results);
        let name: String = self.names[results.len()].clone();
        let outcome: Result<usize, String> = fleet.load_outcome(name.as_str(), last);
        let running: bool = fleet.drop_server(name.as_str());
        let ghost line = (name@, load_view(outcome));
        results.push((name, outcome));
        self.results = results;
        assert(self.outcomes() =~= before.push(line));
        running
    }

    /// What became of each server, in order.
    pub fn results(&self) -> (r: &Vec<(String, Result<usize, String>)>)
        ensures
            r@.len() == self.outcomes().len(),
            forall|i: int|
                0 <= i < r@.len() ==> self.outcomes()[i] == (
                    (#[trigger] r@[i]).0@,
                    load_view(r@[i].1),
                ),
            self.outcomes().len() <= self.names().len(),
            forall|i: int|
                0 <= i < self.outcomes().len() ==> (#[trigger] self.outcomes()[i]).0
                    == self.names()[i],
    {
        proof {
            use_type_invariant(self);
        }
        &self.results
    }
}

/// What the pre-loader says of one server.
pub open spec fn warm_line(name: Seq<char>, outcome: Result<usize, Seq<char>>) -> Seq<char> {
    match outcome {
        Ok(n) => "  "@ + name + ": "@ + decimal(n as nat) + " tools cached"@,
        Err(e) => "  "@ + name + ": FAILED — "@ + e,
    }
}

/// What the pre-loader says of one server.
pub fn report_line(name: &str, outcome: &Result<usize, String>) -> (r: String)
    ensures
        r@ == warm_line(name@, load_view(*outcome)),
{
    let mut line: String = "  ".to_owned();
    line.append(name);
    match outcome {
        Ok(n) => {
            let count: String = number(*n as u64);
            line.append(": ");
            line.append(count.as_str());
            line.append(" tools cached");
        },
        Err(e) => {
            line.append(": FAILED — ");
            line.append(e.as_str());
        },
    }
    line
}

/// The pre-loader's exit code: 1 where a load failed, else 0.
pub fn exit_code(results: &Vec<(String, Result<usize, String>)>) -> (r: i32)
    ensures
        r == (if exists|i: int| 0 <= i < results@.len() && (#[trigger] results@[i]).1 is Err {
            1i32
        } else {
            0i32
        }),
{
    let mut i: usize = 0;
    while i < results.len()
        invariant
            i <= results@.len(),
            forall|k: int| 0 <= k < i ==> (#[trigger] results@[k]).1 is Ok,
        decreases results.len() - i,
    {
        if results[i].1.is_err() {
            return 1;
        }
        i = i + 1;
    }
    0
}

proof fn lemma_push_to_set(s: Seq<Seq<char>>, x: Seq<char>)
    ensures
        s.push(x).to_set() == s.to_set().insert(x),
{
    let more = s.push(x);
    assert forall|e: Seq<char>| more.to_set().contains(e) <==> s.to_set().insert(x).contains(e) by {
        if s.contains(e) {
            let i = choose|i: int| 0 <= i < s.len() && s[i] == e;
            assert(more[i] == e);
        }
        if e == x {
            assert(more[s.len() as int] == e);
        }
        if more.contains(e) {
            let i = choose|i: int| 0 <= i < more.len() && more[i] == e;
            if i < s.len() {
                assert(s[i] == e);
            }
        }
    }
    assert(more.to_set() =~= s.to_set().insert(x));
}

} // verus!
