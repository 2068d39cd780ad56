use dangler::godaddy::api::{
    base_url, call, checked_method, creds_from_file, interpret, load_creds, prepare, settle,
    truncated, ApiRequest, Auth, CredentialEnv, HttpEvent, HttpStep, Lookup, Settings, SETUP_HINT,
};
use dangler::godaddy::server::{
    read_only, DeleteRecordArgs, DnsRecord, DomainArgs, Godaddy, GodaddyCall, GodaddyTool,
    ListDomainsArgs, ListRecordsArgs, NameserversArgs, RawApiArgs, RecordsArgs, SetRecordValue,
    SetRecordsArgs,
};
use dangler::json::Json;
use dangler::mcp::{ErrorKind, ToolError};

fn creds(pat: Option<&str>, key: Option<&str>, secret: Option<&str>, file: Option<&str>) -> CredentialEnv {
    CredentialEnv {
        pat: pat.map(str::to_string),
        key: key.map(str::to_string),
        secret: secret.map(str::to_string),
        file: file.map(str::to_string),
    }
}

fn request(method: &str, path: &str) -> ApiRequest {
    ApiRequest { method: method.to_string(), path: path.to_string(), query: Vec::new(), body: None }
}

fn planned(call: GodaddyCall) -> (String, String, Vec<(String, String)>, Option<String>) {
    let r = Godaddy::plan(&call, false).unwrap();
    (r.method, r.path, r.query, r.body.map(|j| j.to_compact()))
}

fn refused(call: GodaddyCall) -> ToolError {
    let e = Godaddy::plan(&call, true).unwrap_err();
    assert_eq!(e.kind, ErrorKind::InvalidParams);
    e
}

fn record() -> DnsRecord {
    DnsRecord {
        rtype: "A".to_string(),
        name: "@".to_string(),
        data: "1.2.3.4".to_string(),
        ttl: Some(600),
        priority: None,
        weight: None,
        port: None,
        service: None,
        protocol: Some("_tcp".to_string()),
    }
}

fn value() -> SetRecordValue {
    SetRecordValue {
        data: "1.2.3.4".to_string(),
        ttl: None,
        priority: Some(1),
        weight: Some(2),
        port: Some(3),
        service: Some("_sip".to_string()),
        protocol: None,
    }
}

fn raw(method: &str) -> RawApiArgs {
    RawApiArgs {
        method: method.to_string(),
        path: "/v1/agreements".to_string(),
        query: vec![
            ("n".to_string(), Json::UInt(3)),
            ("s".to_string(), Json::text("x y")),
            ("v".to_string(), Json::list().item(Json::Bool(true))),
        ],
        body: Some(Json::object().with("a", Json::Null)),
    }
}

#[test]
fn truncation_is_char_safe() {
    assert_eq!(truncated("héllo", 2), "hé");
    assert_eq!(truncated("hi", 10), "hi");
}

#[test]
fn truncation_at_the_limit() {
    assert_eq!(truncated("hé", 2), "hé");
    assert_eq!(truncated("hé", 0), "");
    assert_eq!(truncated("", 0), "");
}

#[test]
fn creds_file_parses() {
    let env = creds(None, None, None, Some("creds"));
    let path = match load_creds(&env).unwrap() {
        Lookup::Read(path) => path,
        other => panic!("{other:?}"),
    };
    assert_eq!(path, "creds");
    assert_eq!(
        creds_from_file(&path, Ok("KEY=abc\nSECRET=def\n")).unwrap().header_value(),
        "sso-key abc:def",
        "KEY/SECRET lines resolve to sso-key auth"
    );
    // A PAT= line wins over the key pair.
    assert_eq!(
        creds_from_file(&path, Ok("PAT=tok\nKEY=abc\nSECRET=def\n")).unwrap().header_value(),
        "Bearer tok"
    );
}

#[test]
fn the_last_line_of_a_field_wins_and_white_space_does_not_count() {
    let text = "# mine\r\n  PAT = no\r\n KEY= one \r\nKEY=two\t\r\n\tSECRET= s = t ";
    assert_eq!(creds_from_file("f", Ok(text)).unwrap().header_value(), "sso-key two:s = t");
    assert_eq!(
        creds_from_file("f", Ok("PAT=tok\nPAT=\nKEY=k\nSECRET=s")).unwrap().header_value(),
        "sso-key k:s"
    );
}

#[test]
fn a_file_without_credentials_is_an_error() {
    let want = "f must contain a PAT=... line, or KEY=... and SECRET=... lines";
    for text in ["", "KEY=abc\n", "KEY=abc\nSECRET=\n", "pat=tok"] {
        assert_eq!(creds_from_file("f", Ok(text)).unwrap_err(), want, "{text:?}");
    }
    assert_eq!(
        creds_from_file("f", Err("No such file")).unwrap_err(),
        "reading GODADDY_CREDENTIALS_FILE f: No such file"
    );
}

#[test]
fn the_environment_is_searched_in_order() {
    let header = |env: &CredentialEnv| match load_creds(env).unwrap() {
        Lookup::Found(auth) => auth.header_value(),
        Lookup::Read(path) => format!("read {path}"),
    };
    assert_eq!(header(&creds(Some("t"), Some("k"), Some("s"), Some("f"))), "Bearer t");
    assert_eq!(header(&creds(Some(""), Some("k"), Some("s"), Some("f"))), "sso-key k:s");
    assert_eq!(header(&creds(None, Some("k"), Some(""), Some("f"))), "read f");
    assert_eq!(header(&creds(None, None, None, Some(""))), "read ");
    assert_eq!(
        load_creds(&creds(None, Some("k"), None, None)).unwrap_err(),
        format!("no GoDaddy credentials configured. {SETUP_HINT}")
    );
}

#[test]
fn the_test_environment_has_its_own_url() {
    assert_eq!(base_url(Some("ote")), "https://api.ote-godaddy.com");
    assert_eq!(base_url(Some("OTE")), "https://api.godaddy.com");
    assert_eq!(base_url(None), "https://api.godaddy.com");
}

#[test]
fn a_request_is_prepared_with_its_headers() {
    let auth = Auth::SsoKey { key: "k".to_string(), secret: "s".to_string() };
    let mut r = request("patch", "/v1/domains/x");
    r.query.push(("a".to_string(), "b".to_string()));
    r.body = Some(Json::list().item(Json::UInt(1)));
    let h = prepare(&auth, &r, "https://api.godaddy.com", &Some("42".to_string())).unwrap();
    assert_eq!(h.method, "PATCH");
    assert_eq!(h.url, "https://api.godaddy.com/v1/domains/x");
    let headers: Vec<(&str, &str)> =
        h.headers.iter().map(|p| (p.0.as_str(), p.1.as_str())).collect();
    assert_eq!(
        headers,
        vec![
            ("Authorization", "sso-key k:s"),
            ("Accept", "application/json"),
            ("X-Shopper-Id", "42"),
            ("Content-Type", "application/json")
        ]
    );
    assert_eq!(h.query, vec![("a".to_string(), "b".to_string())]);
    assert_eq!(h.body.as_deref(), Some("[1]"));
    let plain = prepare(&auth, &request("GET", "/"), "u", &Some(String::new())).unwrap();
    assert_eq!(plain.headers.len(), 2);
    assert_eq!(plain.body, None);
}

#[test]
fn a_method_is_a_token_in_capitals() {
    let auth = Auth::Pat("t".to_string());
    let method = |m: &str| prepare(&auth, &request(m, "/p"), "u", &None).map(|h| h.method);
    assert_eq!(method("get"), Ok("GET".to_string()));
    assert_eq!(method("m-search!#$%&'*+.^_`|~09"), Ok("M-SEARCH!#$%&'*+.^_`|~09".to_string()));
    assert_eq!(method("a-very-long-extension-method"), Ok("A-VERY-LONG-EXTENSION-METHOD".to_string()));
    assert_eq!(method(""), Err("invalid HTTP method ''".to_string()));
    assert_eq!(method("get it"), Err("invalid HTTP method 'get it'".to_string()));
    assert_eq!(method("é"), Err("invalid HTTP method 'é'".to_string()));
    // capital letters of two characters
    assert_eq!(method("straße"), Ok("STRASSE".to_string()));
}

#[test]
fn every_character_of_a_method_is_judged_alike() {
    let special = "!#$%&'*+-.^_`|~";
    for n in 0..0x300u32 {
        if let Some(c) = char::from_u32(n) {
            let name = format!("A{c}");
            let fits = c.is_ascii_alphanumeric() || special.contains(c);
            assert_eq!(checked_method("m", &name).is_ok(), fits, "{n:x}");
        }
    }
}

#[test]
fn a_path_begins_with_a_slash() {
    let auth = Auth::Pat("t".to_string());
    for path in ["", "v1/domains", " /v1"] {
        assert_eq!(
            prepare(&auth, &request("bad method", path), "u", &None).unwrap_err(),
            format!("path must start with '/', got '{path}'")
        );
    }
}

#[test]
fn responses_are_interpreted() {
    assert_eq!(
        interpret(200, "/p", " {\"b\":1,\"a\":2}").unwrap().to_compact(),
        r#"{"a":2,"b":1}"#
    );
    assert_eq!(interpret(204, "/p", " \n").unwrap().to_compact(), r#"{"ok":true,"status":204}"#);
    assert_eq!(
        interpret(403, "/p", "{\"code\":\"ACCESS_DENIED\"}").unwrap_err(),
        "GoDaddy API 403 Forbidden on /p: {\"code\":\"ACCESS_DENIED\"}"
    );
    assert_eq!(
        interpret(299, "/p", "<html>").unwrap_err(),
        "non-JSON response from /p: <html>: expected value at line 1 column 1"
    );
    assert_eq!(
        interpret(799, "/p", "").unwrap_err(),
        "GoDaddy API 799 <unknown status code> on /p: "
    );
    assert_eq!(interpret(300, "/p", "x").unwrap_err(), "GoDaddy API 300 Multiple Choices on /p: x");
    assert_eq!(interpret(199, "/p", "x").unwrap_err(), "GoDaddy API 199 <unknown status code> on /p: x");
}

#[test]
fn quoted_responses_are_cut() {
    let long = "é".repeat(3000);
    let e = interpret(500, "/p", &long).unwrap_err();
    assert_eq!(e, format!("GoDaddy API 500 Internal Server Error on /p: {}", "é".repeat(2000)));
    let e = settle("/p", &long, Err("cause".to_string())).unwrap_err();
    assert_eq!(e, format!("non-JSON response from /p: {}: cause", "é".repeat(500)));
}

#[test]
fn a_call_goes_from_credentials_to_its_result() {
    let settings = Settings {
        credentials: creds(None, None, None, Some("/c")),
        env: Some("ote".to_string()),
        shopper: None,
    };
    let r = request("GET", "/v1/domains");
    match call(&r, &settings, HttpEvent::Begin) {
        HttpStep::ReadCredentials(path) => assert_eq!(path, "/c"),
        other => panic!("{other:?}"),
    }
    match call(&r, &settings, HttpEvent::CredentialsRead(Ok("PAT=t".to_string()))) {
        HttpStep::Send(h) => {
            assert_eq!(h.url, "https://api.ote-godaddy.com/v1/domains");
            assert_eq!(h.headers[0].1, "Bearer t");
        }
        other => panic!("{other:?}"),
    }
    match call(&r, &settings, HttpEvent::CredentialsRead(Err("denied".to_string()))) {
        HttpStep::Fail(e) => assert_eq!(e, "reading GODADDY_CREDENTIALS_FILE /c: denied"),
        other => panic!("{other:?}"),
    }
    match call(&r, &settings, HttpEvent::Answered { status: 200, text: "[]".to_string() }) {
        HttpStep::Done(j) => assert_eq!(j.to_compact(), "[]"),
        other => panic!("{other:?}"),
    }
    match call(&r, &settings, HttpEvent::Unanswered("timed out".to_string())) {
        HttpStep::Fail(e) => {
            assert_eq!(e, "calling https://api.ote-godaddy.com/v1/domains: timed out")
        }
        other => panic!("{other:?}"),
    }
}

#[test]
fn missing_credentials_come_before_a_bad_path() {
    let settings = Settings { credentials: creds(None, None, None, None), env: None, shopper: None };
    match call(&request("GET", "nope"), &settings, HttpEvent::Begin) {
        HttpStep::Fail(e) => assert!(e.starts_with("no GoDaddy credentials configured. Create a")),
        other => panic!("{other:?}"),
    }
    let settings = Settings { credentials: creds(Some("t"), None, None, None), env: None, shopper: None };
    match call(&request("GET", "nope"), &settings, HttpEvent::Begin) {
        HttpStep::Fail(e) => assert_eq!(e, "path must start with '/', got 'nope'"),
        other => panic!("{other:?}"),
    }
}

#[test]
fn the_surface_is_twelve_tools() {
    let tools = Godaddy::tools();
    let names: Vec<&str> = tools.iter().map(|t| t.name.as_str()).collect();
    assert_eq!(
        names,
        vec![
            "list_domains",
            "get_domain",
            "check_availability",
            "list_tlds",
            "list_dns_records",
            "add_dns_records",
            "set_dns_records",
            "delete_dns_record",
            "replace_all_dns_records",
            "set_nameservers",
            "list_subscriptions",
            "raw_api"
        ]
    );
    for n in &names {
        assert!(Godaddy::route(n, false).is_ok());
    }
    let record = r#"{"properties":{"data":{"description":"record value (IP, hostname, text…)","type":"string"},"name":{"description":"'@' for apex, 'www', '*.dev', …","type":"string"},"port":{"type":"integer"},"priority":{"type":"integer"},"protocol":{"type":"string"},"service":{"type":"string"},"ttl":{"description":"seconds; GoDaddy minimum 600","type":"integer"},"type":{"description":"A, AAAA, CNAME, MX, NS, SRV, TXT","type":"string"},"weight":{"type":"integer"}},"required":["type","name","data"],"type":"object"}"#;
    assert_eq!(
        tools[5].input_schema.to_compact(),
        format!(r#"{{"properties":{{"domain":{{"type":"string"}},"records":{{"items":{record},"type":"array"}}}},"required":["domain","records"],"type":"object"}}"#)
    );
    assert_eq!(tools[8].input_schema.to_compact(), tools[5].input_schema.to_compact());
    assert_eq!(
        tools[0].input_schema.to_compact(),
        r#"{"properties":{"limit":{"type":"integer"},"marker":{"type":"string"},"statuses":{"description":"comma-separated filter, e.g. ACTIVE","type":"string"}},"type":"object"}"#
    );
    assert_eq!(
        tools[11].input_schema.to_compact(),
        r#"{"properties":{"body":{"description":"JSON body for POST/PUT/PATCH"},"method":{"description":"GET, POST, PUT, PATCH, DELETE","type":"string"},"path":{"description":"e.g. /v1/agreements or /v1/certificates/{id}","type":"string"},"query":{"description":"flat string map of query params","type":"object"}},"required":["method","path"],"type":"object"}"#
    );
    assert_eq!(tools[3].description, "List TLDs GoDaddy supports for registration.");
    assert_eq!(Godaddy::get_info().name, "dangler-godaddy");
}

#[test]
fn unknown_tools_and_writes_are_refused() {
    let e = Godaddy::route("nope", true).unwrap_err();
    assert_eq!(e.message, "unknown tool 'nope'");
    assert_eq!(Godaddy::route("list_tlds", true).unwrap(), GodaddyTool::ListTlds);
    assert_eq!(Godaddy::route("raw_api", true).unwrap(), GodaddyTool::RawApi);
    for n in [
        "add_dns_records",
        "set_dns_records",
        "delete_dns_record",
        "replace_all_dns_records",
        "set_nameservers",
    ] {
        let e = Godaddy::route(n, true).unwrap_err();
        assert_eq!(e.kind, ErrorKind::InvalidParams);
        assert_eq!(e.message, format!("'{n}' is a write operation and GODADDY_READ_ONLY is set"));
        assert!(Godaddy::route(n, false).is_ok());
    }
    assert!(read_only(Some("1")));
    assert!(read_only(Some("0")));
    assert!(!read_only(Some("")));
    assert!(!read_only(None));
}

#[test]
fn reads_are_planned() {
    let all = ListDomainsArgs {
        statuses: Some("ACTIVE".to_string()),
        limit: Some(10),
        marker: Some("a.com".to_string()),
    };
    assert_eq!(
        planned(GodaddyCall::ListDomains(all)),
        (
            "GET".to_string(),
            "/v1/domains".to_string(),
            vec![
                ("statuses".to_string(), "ACTIVE".to_string()),
                ("limit".to_string(), "10".to_string()),
                ("marker".to_string(), "a.com".to_string())
            ],
            None
        )
    );
    let none = ListDomainsArgs { statuses: None, limit: None, marker: None };
    assert!(planned(GodaddyCall::ListDomains(none)).2.is_empty());
    let d = || DomainArgs { domain: "a.com".to_string() };
    assert_eq!(planned(GodaddyCall::GetDomain(d())).1, "/v1/domains/a.com");
    let check = planned(GodaddyCall::CheckAvailability(d()));
    assert_eq!(check.1, "/v1/domains/available");
    assert_eq!(check.2, vec![("domain".to_string(), "a.com".to_string())]);
    assert_eq!(planned(GodaddyCall::ListTlds).1, "/v1/domains/tlds");
    assert_eq!(planned(GodaddyCall::ListSubscriptions).1, "/v1/subscriptions");
}

#[test]
fn records_are_listed_by_type_and_name() {
    let list = |rtype: Option<&str>, name: Option<&str>| {
        GodaddyCall::ListDns(ListRecordsArgs {
            domain: "a.com".to_string(),
            rtype: rtype.map(str::to_string),
            name: name.map(str::to_string),
        })
    };
    assert_eq!(planned(list(None, None)).1, "/v1/domains/a.com/records");
    assert_eq!(planned(list(Some("A"), None)).1, "/v1/domains/a.com/records/A");
    assert_eq!(planned(list(Some("A"), Some("www"))).1, "/v1/domains/a.com/records/A/www");
    let e = Godaddy::plan(&list(None, Some("www")), false).unwrap_err();
    assert_eq!(e.kind, ErrorKind::InvalidParams);
    assert_eq!(e.message, "'name' requires 'type'");
}

#[test]
fn writes_are_planned_and_refused_in_read_only_mode() {
    let records = || RecordsArgs { domain: "a.com".to_string(), records: vec![record()] };
    let body = r#"[{"data":"1.2.3.4","name":"@","protocol":"_tcp","ttl":600,"type":"A"}]"#;
    let add = planned(GodaddyCall::AddDns(records()));
    assert_eq!(
        (add.0.as_str(), add.1.as_str(), add.3.as_deref()),
        ("PATCH", "/v1/domains/a.com/records", Some(body))
    );
    let replace = planned(GodaddyCall::ReplaceAllDns(records()));
    assert_eq!(
        (replace.0.as_str(), replace.1.as_str(), replace.3.as_deref()),
        ("PUT", "/v1/domains/a.com/records", Some(body))
    );
    let set = || SetRecordsArgs {
        domain: "a.com".to_string(),
        rtype: "SRV".to_string(),
        name: "@".to_string(),
        records: vec![value()],
    };
    let got = planned(GodaddyCall::SetDns(set()));
    assert_eq!(
        (got.0.as_str(), got.1.as_str(), got.3.as_deref()),
        (
            "PUT",
            "/v1/domains/a.com/records/SRV/@",
            Some(r#"[{"data":"1.2.3.4","port":3,"priority":1,"service":"_sip","weight":2}]"#)
        )
    );
    let delete = || DeleteRecordArgs {
        domain: "a.com".to_string(),
        rtype: "A".to_string(),
        name: "www".to_string(),
    };
    let got = planned(GodaddyCall::DeleteDns(delete()));
    assert_eq!(
        (got.0.as_str(), got.1.as_str(), got.3),
        ("DELETE", "/v1/domains/a.com/records/A/www", None)
    );
    let ns = || NameserversArgs {
        domain: "a.com".to_string(),
        nameservers: vec!["ns1.x".to_string(), "ns2.x".to_string()],
    };
    let got = planned(GodaddyCall::SetNameservers(ns()));
    assert_eq!(
        (got.0.as_str(), got.1.as_str(), got.3.as_deref()),
        ("PATCH", "/v1/domains/a.com", Some(r#"{"nameServers":["ns1.x","ns2.x"]}"#))
    );
    assert_eq!(
        refused(GodaddyCall::AddDns(records())).message,
        "'add_dns_records' is a write operation and GODADDY_READ_ONLY is set"
    );
    assert_eq!(
        refused(GodaddyCall::ReplaceAllDns(records())).message,
        "'replace_all_dns_records' is a write operation and GODADDY_READ_ONLY is set"
    );
    refused(GodaddyCall::SetDns(set()));
    refused(GodaddyCall::DeleteDns(delete()));
    refused(GodaddyCall::SetNameservers(ns()));
}

#[test]
fn raw_calls_pass_and_only_reads_in_read_only_mode() {
    let got = planned(GodaddyCall::RawApi(raw("post")));
    assert_eq!(got.0, "post");
    assert_eq!(got.1, "/v1/agreements");
    assert_eq!(
        got.2,
        vec![
            ("n".to_string(), "3".to_string()),
            ("s".to_string(), "x y".to_string()),
            ("v".to_string(), "[true]".to_string())
        ]
    );
    assert_eq!(got.3.as_deref(), Some(r#"{"a":null}"#));
    assert_eq!(
        refused(GodaddyCall::RawApi(raw("post"))).message,
        "'raw_api' is a write operation and GODADDY_READ_ONLY is set"
    );
    refused(GodaddyCall::RawApi(raw("")));
    let read = Godaddy::plan(&GodaddyCall::RawApi(raw("gEt")), true).unwrap();
    let wire = prepare(&Auth::Pat("t".to_string()), &read, "u", &None).unwrap();
    assert_eq!(wire.method, "GET");
}

#[test]
fn results_are_answered_indented_and_errors_internal() {
    let ok = Godaddy::reply(Ok(Json::object().with("a", Json::UInt(1)))).unwrap();
    assert_eq!(ok, "{\n  \"a\": 1\n}");
    let e = Godaddy::reply(Err("boom".to_string())).unwrap_err();
    assert_eq!((e.kind, e.message.as_str()), (ErrorKind::Internal, "boom"));
}
