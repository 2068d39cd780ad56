use dangler::config::{Config, ServerSpec};
use dangler::fleet::{Fleet, Moment, SpawnFailure, ToolRequest};
use dangler::json::Json;
use dangler::mcp::{ErrorKind, ToolError};
use dangler::server::{Dangler, MetaCall, MetaEvent, MetaStep, MetaTool};
use dangler::table::Table;
use dangler::tool::ToolSchema;

fn spec(identity: Option<&str>, hint: Option<&str>) -> ServerSpec {
    ServerSpec {
        command: "srv.exe".to_string(),
        args: Vec::new(),
        env: Table::new(),
        cwd: None,
        idle_timeout_secs: None,
        identity: identity.map(str::to_string),
        setup_hint: hint.map(str::to_string),
    }
}

fn dangler() -> Dangler {
    let mut servers = Table::new();
    servers.insert("mail".to_string(), spec(Some("personal"), Some("log in")));
    servers.insert("dns".to_string(), spec(None, None));
    Dangler::new(Fleet::new(Config { idle_timeout_secs: None, servers }, None))
}

fn tool(name: &str, desc: &str) -> ToolSchema {
    let json = Json::object()
        .with("name", Json::text(name))
        .with("description", Json::text(desc))
        .with("inputSchema", Json::object());
    ToolSchema::from_json(&json).unwrap()
}

type Call = MetaCall<Json>;
type Event = MetaEvent<String>;
type Step<'a> = MetaStep<'a, Json, String>;

fn call_of(server: &str) -> Call {
    let arguments = Some(Json::list().item(Json::text("x")));
    let request = ToolRequest { tool: "send".to_string(), arguments };
    MetaCall::CallTool { server: server.to_string(), request }
}

fn now() -> Moment {
    Moment { nanos: 7 }
}

fn compact(text: &str) -> String {
    Json::parse(text).unwrap().to_compact()
}

fn reply(step: Step) -> String {
    match step {
        MetaStep::Reply(text) => compact(&text),
        other => panic!("{other:?}"),
    }
}

fn failure(step: Step) -> String {
    match step {
        MetaStep::Fail(e) => {
            assert_eq!(e.kind, ErrorKind::Internal);
            e.message
        }
        other => panic!("{other:?}"),
    }
}

#[test]
fn the_surface_is_five_meta_tools() {
    let tools = Dangler::meta_tools();
    let got: Vec<(String, String)> =
        tools.iter().map(|t| (t.name.clone(), t.input_schema.to_compact())).collect();
    let want = [
        ("list_servers", r#"{"properties":{},"type":"object"}"#),
        (
            "search_tools",
            r#"{"properties":{"query":{"description":"substring, case-insensitive","type":"string"}},"required":["query"],"type":"object"}"#,
        ),
        (
            "load_server",
            r#"{"properties":{"name":{"description":"server name from list_servers","type":"string"}},"required":["name"],"type":"object"}"#,
        ),
        (
            "call_tool",
            r#"{"properties":{"arguments":{"description":"arguments for the downstream tool","type":"object"},"server":{"type":"string"},"tool":{"type":"string"}},"required":["server","tool"],"type":"object"}"#,
        ),
        (
            "drop_server",
            r#"{"properties":{"name":{"type":"string"}},"required":["name"],"type":"object"}"#,
        ),
    ];
    assert_eq!(got.len(), want.len());
    for (g, w) in got.iter().zip(want) {
        assert_eq!((g.0.as_str(), g.1.as_str()), w);
        assert!(Dangler::route(&g.0).is_ok());
    }
    assert_eq!(
        tools[4].description,
        "Stop a running downstream server and free its process. Its cached schemas remain searchable."
    );
    assert_eq!(Dangler::get_info().name, "dangler");
}

#[test]
fn names_are_routed_and_others_refused() {
    assert_eq!(Dangler::route("call_tool").unwrap(), MetaTool::CallTool);
    assert_eq!(Dangler::route("drop_server").unwrap(), MetaTool::DropServer);
    let e = Dangler::route("Call_tool").unwrap_err();
    assert_eq!(e.kind, ErrorKind::InvalidParams);
    assert_eq!(e.message, "unknown tool 'Call_tool'");
    assert_eq!(ToolError::bad_arguments("missing field `name`").message, "bad arguments: missing field `name`");
}

#[test]
fn servers_are_listed_with_identity_and_hint() {
    let mut d = dangler();
    d.fleet.spawned("dns", Ok(()), now()).unwrap();
    d.fleet.index("dns", vec![tool("t", "d")]);
    let step = d.call_tool(&Call::ListServers, Event::Begin, now());
    assert_eq!(
        reply(step),
        r#"{"servers":[{"cached_tools":1,"name":"dns","status":"warm"},{"cached_tools":null,"identity":"personal","name":"mail","setup_hint":"log in","status":"cold"}]}"#
    );
}

#[test]
fn a_search_names_hits_and_what_is_not_indexed() {
    let mut d = dangler();
    d.fleet.index("mail", vec![tool("send", "Send mail")]);
    let call = Call::SearchTools { query: "SEND".to_string() };
    assert_eq!(
        reply(d.call_tool(&call, Event::Begin, now())),
        r#"{"hits":[{"description":"Send mail","identity":"personal","server":"mail","tool":"send"}],"not_indexed_yet":["dns"]}"#
    );
    assert!(d.fleet.children.is_empty());
}

#[test]
fn a_load_answers_with_the_full_schemas() {
    let mut d = dangler();
    let call = Call::LoadServer { name: "dns".to_string() };
    assert!(matches!(d.call_tool(&call, Event::Begin, now()), MetaStep::Spawn));
    assert!(matches!(d.call_tool(&call, Event::Spawned(Ok(())), now()), MetaStep::List { ticket: 0 }));
    match d.call_tool(&call, Event::Listed { ticket: 0, listed: Ok(vec![tool("t", "d")]) }, now()) {
        MetaStep::Loaded { reply, cache_file } => {
            assert_eq!(
                compact(&reply),
                r#"{"server":"dns","tools":[{"description":"d","inputSchema":{},"name":"t"}]}"#
            );
            assert_eq!(
                compact(&cache_file),
                r#"{"dns":[{"description":"d","inputSchema":{},"name":"t"}]}"#
            );
        }
        other => panic!("{other:?}"),
    }
    assert_eq!(d.fleet.inflight("dns"), 0);
    assert!(matches!(d.call_tool(&call, Event::Begin, now()), MetaStep::List { ticket: 0 }));
    assert_eq!(
        failure(d.call_tool(&call, Event::Listed { ticket: 0, listed: Err("eof".into()) }, now())),
        "listing tools of 'dns': eof"
    );
}

#[test]
fn a_call_is_relayed_or_fails() {
    let mut d = dangler();
    let call = call_of("mail");
    assert!(matches!(d.call_tool(&call, Event::Begin, now()), MetaStep::Spawn));
    assert_eq!(
        failure(d.call_tool(
            &call,
            Event::Spawned(Err(SpawnFailure::Spawn("no such file".into()))),
            now()
        )),
        "spawning 'mail' (srv.exe): no such file. log in"
    );
    match d.call_tool(&call, Event::Spawned(Ok(())), now()) {
        MetaStep::Call { ticket, request } => {
            assert_eq!(ticket, 0);
            assert_eq!(request.tool, "send");
            assert_eq!(request.arguments.as_ref().unwrap().to_compact(), r#"["x"]"#);
        }
        other => panic!("{other:?}"),
    }
    let answer = Event::Answered { ticket: 0, answer: Ok("sent".to_string()) };
    match d.call_tool(&call, answer, now()) {
        MetaStep::Relay(a) => assert_eq!(a, "sent"),
        other => panic!("{other:?}"),
    }
    assert!(matches!(
        d.call_tool(&call, Event::Begin, now()),
        MetaStep::Call { ticket: 0, .. }
    ));
    assert_eq!(
        failure(d.call_tool(&call, Event::Answered { ticket: 0, answer: Err("closed".into()) }, now())),
        "calling mail/send: closed"
    );
    let stray = call_of("x");
    assert_eq!(
        failure(d.call_tool(&stray, Event::Begin, now())),
        "no server 'x' in config"
    );
}

#[test]
fn a_dropped_server_stays_searchable() {
    let mut d = dangler();
    d.fleet.spawned("dns", Ok(()), now()).unwrap();
    d.fleet.index("dns", vec![tool("t", "d")]);
    let call = Call::DropServer { name: "dns".to_string() };
    match d.call_tool(&call, Event::Begin, now()) {
        MetaStep::Dropped { reply, running } => {
            assert!(running);
            assert_eq!(compact(&reply), r#"{"dropped":true,"server":"dns"}"#);
        }
        other => panic!("{other:?}"),
    }
    assert_eq!(d.fleet.search("t").len(), 1);
    match d.call_tool(&call, Event::Begin, now()) {
        MetaStep::Dropped { reply, running } => {
            assert!(!running);
            assert_eq!(compact(&reply), r#"{"dropped":false,"server":"dns"}"#);
        }
        other => panic!("{other:?}"),
    }
}
