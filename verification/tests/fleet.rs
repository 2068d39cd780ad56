use dangler::config::{Config, ConfigPath, ServerSpec};
use dangler::fleet::{
    cache_path, exit_code, matches_query, report_line, should_reap, Acquired, CachePath, CallEvent,
    CallStep, Child, Fleet, LoadEvent, LoadStep, Moment, Span, SpawnFailure,
    ToolRequest, DEFAULT_IDLE_TIMEOUT_SECS,
};
use dangler::json::Json;
use dangler::table::Table;
use dangler::tool::ToolSchema;

fn spec_with_timeout(idle_timeout_secs: Option<u64>) -> ServerSpec {
    ServerSpec {
        command: "true".to_string(),
        args: Vec::new(),
        env: Table::new(),
        cwd: None,
        idle_timeout_secs,
        identity: None,
        setup_hint: None,
    }
}

fn test_config(names: &[&str]) -> Config {
    let mut servers = Table::new();
    for n in names {
        servers.insert(n.to_string(), spec_with_timeout(None));
    }
    Config { idle_timeout_secs: None, servers }
}

fn tool(name: &str, desc: &str) -> ToolSchema {
    let schema = Json::object()
        .with("type", Json::text("object"))
        .with("properties", Json::object());
    let json = Json::object()
        .with("name", Json::text(name))
        .with("description", Json::text(desc))
        .with("inputSchema", schema);
    ToolSchema::from_json(&json).unwrap()
}

fn request(name: &str) -> ToolRequest<Json> {
    ToolRequest { tool: name.to_string(), arguments: Some(Json::object().with("a", Json::UInt(1))) }
}

fn at(secs: u64) -> Moment {
    Moment { nanos: Span::from_secs(secs).nanos }
}

#[test]
fn should_reap_respects_inflight_and_timeout() {
    let t = Some(Span::from_secs(600));
    assert!(should_reap(0, Span::from_secs(600), t));
    assert!(should_reap(0, Span::from_secs(9000), t));
    assert!(!should_reap(0, Span::from_secs(599), t));
    // a child with traffic is never reaped, no matter how stale last_used is
    assert!(!should_reap(1, Span::from_secs(9000), t));
    // timeout None = reaping disabled
    assert!(!should_reap(0, Span::from_secs(9000), None));
}

#[test]
fn idle_timeout_resolution_order() {
    let mut cfg = test_config(&["default", "never"]);
    cfg.servers.insert("fast".into(), spec_with_timeout(Some(30)));
    cfg.servers.insert("never".into(), spec_with_timeout(Some(0)));

    let fleet = Fleet { config: cfg, children: Table::new(), spawns: 0, cache: Table::new() };
    assert_eq!(
        fleet.idle_timeout("default"),
        Some(Span::from_secs(DEFAULT_IDLE_TIMEOUT_SECS))
    );
    assert_eq!(fleet.idle_timeout("fast"), Some(Span::from_secs(30)));
    assert_eq!(fleet.idle_timeout("never"), None);

    let mut cfg2 = test_config(&["srv"]);
    cfg2.idle_timeout_secs = Some(120);
    let fleet2 = Fleet { config: cfg2, children: Table::new(), spawns: 0, cache: Table::new() };
    assert_eq!(fleet2.idle_timeout("srv"), Some(Span::from_secs(120)));
}

#[test]
fn search_matches_name_and_description_and_reports_unindexed() {
    let mut fleet = Fleet::new(test_config(&["indexed", "cold"]), None);
    fleet.cache.insert(
        "indexed".into(),
        vec![
            tool("gd_list_records", "List DNS records for a domain"),
            tool("echo", "Echoes back the input string"),
        ],
    );

    let hits = fleet.search("DNS");
    assert_eq!(hits.len(), 1);
    assert_eq!(hits[0].tool, "gd_list_records");
    assert_eq!(hits[0].server, "indexed");
    assert_eq!(fleet.search("echo").len(), 1);
    assert!(fleet.search("nonexistent-term").is_empty());
    assert_eq!(fleet.unindexed(), vec!["cold".to_string()]);
}

#[test]
fn cache_persists_and_reloads() {
    let mut fleet = Fleet::new(test_config(&["srv"]), None);
    fleet.cache.insert(
        "srv".into(),
        vec![tool("t1", "first"), tool("t2", "second")],
    );
    let file = fleet.persist_cache();
    assert!(!file.is_empty());

    let reloaded = Fleet::new(test_config(&["srv"]), Some(&file));
    let cache = reloaded.cache.get("srv").unwrap();
    assert_eq!(cache.len(), 2);
    assert_eq!(cache[0].name(), "t1");
    assert!(reloaded.unindexed().is_empty());
}

#[test]
fn the_cache_file_has_the_tools_by_server() {
    let mut fleet = Fleet::new(test_config(&["b", "a"]), None);
    fleet.index("b", vec![tool("t", "d")]);
    fleet.index("a", vec![]);
    let text = fleet.persist_cache();
    let read = Json::parse(&text).unwrap();
    assert_eq!(
        read.to_compact(),
        r#"{"a":[],"b":[{"description":"d","inputSchema":{"properties":{},"type":"object"},"name":"t"}]}"#
    );
}

#[test]
fn a_corrupt_cache_file_is_no_cache() {
    let fleet = Fleet::new(test_config(&["srv"]), Some("not json"));
    assert!(fleet.cache.is_empty());
    assert_eq!(fleet.unindexed(), vec!["srv".to_string()]);
}

#[test]
fn a_document_that_is_no_tool_is_refused() {
    assert!(ToolSchema::from_json(&Json::object()).is_none());
    assert!(ToolSchema::from_json(&Json::Null).is_none());
}

#[test]
fn a_tool_keeps_its_name_description_and_document() {
    let t = tool("echo", "Echoes");
    assert_eq!(t.name(), "echo");
    assert_eq!(t.description().as_deref(), Some("Echoes"));
    assert_eq!(
        t.json().to_compact(),
        r#"{"description":"Echoes","inputSchema":{"properties":{},"type":"object"},"name":"echo"}"#
    );
    assert_eq!(t.copy().json().to_compact(), t.json().to_compact());
}

#[test]
fn search_ignores_case() {
    let mut fleet = Fleet::new(test_config(&["s"]), None);
    fleet.index("s", vec![tool("Étude", "ECHO Chamber")]);
    assert_eq!(fleet.search("éTUDE").len(), 1);
    assert_eq!(fleet.search("echo chamber").len(), 1);
    assert_eq!(fleet.search("").len(), 1);
    assert_eq!(fleet.search("chambers").len(), 0);
}

#[test]
fn a_query_stands_in_the_name_or_the_description() {
    assert!(matches_query("list", "list_tlds", ""));
    assert!(matches_query("dns", "x", "all dns records"));
    assert!(!matches_query("dns", "x", "all records"));
    assert!(matches_query("", "x", "y"));
}

#[test]
fn hits_come_in_the_order_of_servers_and_tools_with_their_identity() {
    let mut config = test_config(&["zeta"]);
    let mut spec = spec_with_timeout(None);
    spec.identity = Some("personal".to_string());
    config.servers.insert("alpha".to_string(), spec);
    let mut fleet = Fleet::new(config, None);
    fleet.index("zeta", vec![tool("z", "find me")]);
    fleet.index("alpha", vec![tool("b", "find me"), tool("a", "find me")]);
    let hits = fleet.search("find");
    let got: Vec<(&str, &str, Option<&str>)> = hits
        .iter()
        .map(|h| (h.server.as_str(), h.tool.as_str(), h.identity.as_deref()))
        .collect();
    assert_eq!(
        got,
        vec![
            ("alpha", "b", Some("personal")),
            ("alpha", "a", Some("personal")),
            ("zeta", "z", None)
        ]
    );
    assert_eq!(hits[0].description, "find me");
}

#[test]
fn a_request_claims_a_warm_server_and_gives_it_back() {
    let mut fleet = Fleet::new(test_config(&["srv"]), None);
    assert_eq!(fleet.acquire("srv", at(1)), Ok(Acquired::Cold));
    assert_eq!(fleet.spawned("srv", Ok(()), at(2)), Ok(0));
    assert_eq!(fleet.inflight("srv"), 1);
    assert_eq!(fleet.acquire("srv", at(3)), Ok(Acquired::Warm(0)));
    assert_eq!(fleet.inflight("srv"), 2);
    fleet.release("srv", 0, at(4));
    fleet.release("srv", 0, at(5));
    assert_eq!(
        fleet.children.get("srv"),
        Some(&Child { last_used: at(5), inflight: 0, generation: 0 })
    );
    // giving back once too often does not underflow
    fleet.release("srv", 0, at(6));
    assert_eq!(fleet.inflight("srv"), 0);
    // a server that is gone is given back without effect
    assert!(fleet.drop_server("srv"));
    fleet.release("srv", 0, at(7));
    assert!(fleet.children.is_empty());
    assert!(!fleet.drop_server("srv"));
}

#[test]
fn a_request_to_a_dropped_child_does_not_give_back_the_next_one() {
    let mut fleet = Fleet::new(test_config(&["srv"]), None);
    let first = fleet.spawned("srv", Ok(()), at(0)).unwrap();
    assert!(fleet.drop_server("srv"));
    let second = fleet.spawned("srv", Ok(()), at(1)).unwrap();
    assert_ne!(first, second);
    fleet.release("srv", first, at(2));
    assert_eq!(
        fleet.children.get("srv"),
        Some(&Child { last_used: at(1), inflight: 1, generation: second })
    );
    // the second request is still out
    assert_eq!(fleet.reap_idle(at(1_000_000)), Vec::<String>::new());
    fleet.release("srv", second, at(1_000_000));
    assert_eq!(fleet.reap_idle(at(1_000_600)), vec!["srv".to_string()]);
}

#[test]
fn a_slow_call_survives_a_drop_and_a_respawn() {
    let mut fleet = Fleet::new(test_config(&["srv"]), None);
    let r = request("t");
    let mut tickets = Vec::new();
    for t in 0..2 {
        assert!(matches!(
            fleet.call::<Json, ()>("srv", &r, CallEvent::Begin, at(t)),
            CallStep::Spawn
        ));
        match fleet.call::<Json, ()>("srv", &r, CallEvent::Spawned(Ok(())), at(t)) {
            CallStep::Call { ticket, .. } => tickets.push(ticket),
            other => panic!("{other:?}"),
        }
        if t == 0 {
            assert!(fleet.drop_server("srv"));
        }
    }
    let failed = Err("closed".to_string());
    let event = CallEvent::<()>::Answered { ticket: tickets[0], answer: failed };
    assert!(matches!(fleet.call("srv", &r, event, at(2)), CallStep::Failed(_)));
    assert!(fleet.reap_idle(at(602)).is_empty());
    let event = CallEvent::Answered { ticket: tickets[1], answer: Ok(()) };
    assert!(matches!(fleet.call("srv", &r, event, at(700)), CallStep::Relay(())));
    assert_eq!(fleet.reap_idle(at(1300)), vec!["srv".to_string()]);
}

#[test]
fn an_unknown_server_is_no_server() {
    let mut fleet = Fleet::new(test_config(&["srv"]), None);
    let e = "no server 'nope' in config".to_string();
    assert_eq!(fleet.acquire("nope", at(1)), Err(e.clone()));
    assert_eq!(fleet.spec("nope").map(|_| ()), Err(e.clone()));
    assert!(fleet.spec("srv").is_ok());
    match fleet.load("nope", LoadEvent::Begin, at(1)) {
        LoadStep::Failed(m) => assert_eq!(m, e),
        other => panic!("{other:?}"),
    }
    match fleet.call::<Json, ()>("nope", &request("t"), CallEvent::Begin, at(1)) {
        CallStep::Failed(m) => assert_eq!(m, e),
        other => panic!("{other:?}"),
    }
}

#[test]
fn reaping_takes_exactly_the_idle() {
    let mut config = test_config(&["busy", "fresh", "idle"]);
    config.servers.insert("never".to_string(), spec_with_timeout(Some(0)));
    let mut fleet = Fleet::new(config, None);
    for name in ["busy", "fresh", "idle", "never"] {
        fleet.spawned(name, Ok(()), at(0)).unwrap();
    }
    let tickets: Vec<u64> = ["idle", "never", "fresh"]
        .iter()
        .map(|n| fleet.children.get(n).unwrap().generation)
        .collect();
    assert_eq!(tickets, vec![2, 3, 1]);
    fleet.release("idle", 2, at(0));
    fleet.release("never", 3, at(0));
    fleet.release("fresh", 1, at(1));
    assert_eq!(fleet.reap_idle(at(599)), Vec::<String>::new());
    assert_eq!(fleet.reap_idle(at(600)), vec!["idle".to_string()]);
    assert!(fleet.children.contains_key("busy"));
    assert!(fleet.children.contains_key("fresh"));
    assert!(fleet.children.contains_key("never"));
    assert_eq!(fleet.reap_idle(at(1_000_000)), vec!["fresh".to_string()]);
    assert_eq!(fleet.children.len(), 2);
}

#[test]
fn a_clock_that_stands_still_measures_nothing() {
    assert_eq!(at(5).duration_since(at(3)), Span::from_secs(2));
    assert_eq!(at(3).duration_since(at(5)), Span { nanos: 0 });
}

#[test]
fn a_failed_spawn_explains_itself_and_changes_nothing() {
    let mut config = test_config(&[]);
    let mut spec = spec_with_timeout(None);
    spec.command = "npx".to_string();
    spec.setup_hint = Some("run authorize".to_string());
    config.servers.insert("srv".to_string(), spec);
    let mut fleet = Fleet::new(config, None);
    assert_eq!(
        fleet.spawned("srv", Err(SpawnFailure::Spawn("not found".into())), at(1)),
        Err("spawning 'srv' (npx): not found. run authorize".to_string())
    );
    assert_eq!(
        fleet.spawned("srv", Err(SpawnFailure::Handshake("closed".into())), at(1)),
        Err("MCP handshake with 'srv': closed. run authorize".to_string())
    );
    assert!(fleet.children.is_empty());
}

#[test]
fn a_load_spawns_lists_and_caches() {
    let mut fleet = Fleet::new(test_config(&["srv"]), None);
    assert!(matches!(fleet.load("srv", LoadEvent::Begin, at(1)), LoadStep::Spawn));
    assert!(matches!(
        fleet.load("srv", LoadEvent::Spawned(Ok(())), at(2)),
        LoadStep::List { ticket: 0 }
    ));
    let listed = Ok(vec![tool("t", "d")]);
    let last = fleet.load("srv", LoadEvent::Listed { ticket: 0, listed }, at(3));
    assert!(matches!(last, LoadStep::Loaded));
    assert_eq!(fleet.load_outcome("srv", last), Ok(1));
    assert_eq!(fleet.inflight("srv"), 0);
    assert_eq!(fleet.search("t").len(), 1);
    // warm by now, and given back though it fails to list
    assert!(matches!(
        fleet.load("srv", LoadEvent::Begin, at(4)),
        LoadStep::List { ticket: 0 }
    ));
    let listed = Err("gone".to_string());
    let last = fleet.load("srv", LoadEvent::Listed { ticket: 0, listed }, at(5));
    assert_eq!(
        fleet.load_outcome("srv", last),
        Err("listing tools of 'srv': gone".to_string())
    );
    assert_eq!(fleet.inflight("srv"), 0);
    assert_eq!(fleet.search("t").len(), 1);
}

#[test]
fn a_call_sends_just_the_request_and_relays_the_answer() {
    let mut fleet = Fleet::new(test_config(&["srv"]), None);
    let r = request("t");
    assert!(matches!(
        fleet.call::<Json, &str>("srv", &r, CallEvent::Begin, at(1)),
        CallStep::Spawn
    ));
    match fleet.call::<Json, &str>("srv", &r, CallEvent::Spawned(Ok(())), at(2)) {
        CallStep::Call { ticket, request } => {
            assert_eq!(ticket, 0);
            assert_eq!(request.tool, "t");
            assert_eq!(request.arguments.as_ref().unwrap().to_compact(), r#"{"a":1}"#);
        }
        other => panic!("{other:?}"),
    }
    let event = CallEvent::Answered { ticket: 0, answer: Ok("the answer") };
    assert!(matches!(fleet.call("srv", &r, event, at(3)), CallStep::Relay("the answer")));
    let bare: ToolRequest<Json> = ToolRequest { tool: "u".to_string(), arguments: None };
    match fleet.call::<Json, &str>("srv", &bare, CallEvent::Begin, at(4)) {
        CallStep::Call { request, .. } => assert!(request.arguments.is_none()),
        other => panic!("{other:?}"),
    }
    let event = CallEvent::<&str>::Answered { ticket: 0, answer: Err("boom".into()) };
    match fleet.call("srv", &bare, event, at(5)) {
        CallStep::Failed(m) => assert_eq!(m, "calling srv/u: boom"),
        other => panic!("{other:?}"),
    }
    assert_eq!(fleet.inflight("srv"), 0);
}

#[test]
fn warming_loads_each_server_once_and_leaves_nothing_warm() {
    let mut fleet = Fleet::new(test_config(&["b", "a"]), None);
    let mut warming = fleet.warm_all();
    assert_eq!(warming.next().map(String::as_str), Some("a"));
    fleet.load("a", LoadEvent::Begin, at(1));
    fleet.load("a", LoadEvent::Spawned(Ok(())), at(1));
    let listed = Ok(vec![tool("t", "d"), tool("u", "d")]);
    let last = fleet.load("a", LoadEvent::Listed { ticket: 0, listed }, at(1));
    assert!(warming.loaded(&mut fleet, last));
    assert_eq!(warming.next().map(String::as_str), Some("b"));
    fleet.load("b", LoadEvent::Begin, at(2));
    let failure = SpawnFailure::Handshake("closed".to_string());
    let last = fleet.load("b", LoadEvent::Spawned(Err(failure)), at(2));
    assert!(!warming.loaded(&mut fleet, last));
    assert_eq!(warming.next(), None);
    assert!(fleet.children.is_empty());
    assert!(!fleet.cache.contains_key("b"));
    assert_eq!(fleet.search("u").len(), 1);
    let lines: Vec<String> = warming
        .results()
        .iter()
        .map(|(name, outcome)| report_line(name, outcome))
        .collect();
    assert_eq!(
        lines,
        vec![
            "  a: 2 tools cached".to_string(),
            "  b: FAILED — MCP handshake with 'b': closed".to_string()
        ]
    );
    assert_eq!(exit_code(warming.results()), 1);
    assert_eq!(exit_code(&vec![("a".to_string(), Ok(3))]), 0);
    assert_eq!(exit_code(&Vec::new()), 0);
}

fn nested(depth: usize) -> Json {
    let mut j = Json::list();
    for _ in 1..depth {
        j = Json::list().item(j);
    }
    j
}

fn deep_tool(depth: usize) -> ToolSchema {
    let json = Json::object()
        .with("name", Json::text("deep"))
        .with("inputSchema", Json::object().with("x", nested(depth)));
    ToolSchema::from_json(&json).unwrap()
}

#[test]
fn the_depth_that_survives_a_restart_is_decided() {
    assert!(Json::Null.fits(0));
    assert!(!Json::list().fits(0));
    assert!(nested(3).fits(3));
    assert!(!nested(3).fits(2));
    assert!(!Json::object().with("a", nested(2)).fits(2));
    // the document and the schema are two levels around what they hold
    for (depth, survives) in [(123, true), (124, false)] {
        let mut fleet = Fleet::new(test_config(&["srv"]), None);
        fleet.index("srv", vec![deep_tool(depth)]);
        assert_eq!(fleet.cache_is_shallow(), survives);
        let reopened = Fleet::new(test_config(&["other"]), Some(&fleet.persist_cache()));
        assert_eq!(reopened.cache.contains_key("srv"), survives);
        assert_eq!(reopened.search("deep").len(), survives as usize);
        assert_eq!(reopened.unindexed(), vec!["other".to_string()]);
    }
}

#[test]
fn statuses_tell_warm_from_cold_and_count_cached_tools() {
    let mut fleet = Fleet::new(test_config(&["b", "a"]), None);
    fleet.spawned("b", Ok(()), at(1)).unwrap();
    fleet.index("b", vec![tool("t", "d")]);
    let got: Vec<(String, bool, Option<usize>)> = fleet
        .statuses()
        .into_iter()
        .map(|s| (s.name, s.warm, s.cached_tools))
        .collect();
    assert_eq!(
        got,
        vec![("a".to_string(), false, None), ("b".to_string(), true, Some(1))]
    );
}

#[test]
fn the_cache_file_stands_where_the_environment_says() {
    assert!(matches!(
        cache_path(Some("x"), Some("profile"), Some("home")),
        CachePath::Given("x")
    ));
    assert!(matches!(
        cache_path(None, Some("profile"), Some("home")),
        CachePath::Under { home: Some("profile"), dir: ".dangler", file: "cache.json" }
    ));
    assert!(matches!(
        cache_path(None, None, Some("home")),
        CachePath::Under { home: Some("home"), .. }
    ));
    assert!(matches!(cache_path::<&str>(None, None, None), CachePath::Under { home: None, .. }));
}

#[test]
fn the_configuration_stands_where_the_environment_says() {
    assert!(matches!(Config::default_path(Some("x")), ConfigPath::Given("x")));
    assert!(matches!(Config::default_path::<&str>(None), ConfigPath::File("dangler.toml")));
}

#[test]
fn a_table_keeps_its_keys_ascending() {
    let mut t: Table<u8> = Table::new();
    for (k, v) in [("b", 1), ("a", 2), ("ñ", 3), ("b", 4), ("ab", 5)] {
        t.insert(k.to_string(), v);
    }
    let keys: Vec<&str> = (0..t.len()).map(|i| t.key(i).as_str()).collect();
    assert_eq!(keys, vec!["a", "ab", "b", "ñ"]);
    assert_eq!(t.get("b"), Some(&4));
    assert_eq!(t.remove("b"), Some(4));
    assert_eq!(t.remove("b"), None);
    assert_eq!(*t.value(2), 3);
    assert!(!t.contains_key("b"));
}

#[test]
fn what_is_reaped_or_dropped_is_not_forgotten() {
    let mut fleet = Fleet::new(test_config(&["srv"]), None);
    fleet.index("srv", vec![tool("t", "d")]);
    for by_hand in [false, true] {
        let ticket = fleet.spawned("srv", Ok(()), at(0)).unwrap();
        fleet.release("srv", ticket, at(0));
        if by_hand {
            assert!(fleet.drop_server("srv"));
        } else {
            assert_eq!(fleet.reap_idle(at(600)), vec!["srv".to_string()]);
        }
        assert_eq!(fleet.search("t").len(), 1);
        assert!(fleet.unindexed().is_empty());
        assert!(matches!(
            fleet.call::<Json, ()>("srv", &request("t"), CallEvent::Begin, at(601)),
            CallStep::Spawn
        ));
    }
}
