//! The MCP face of the GoDaddy extension: a static tool surface over the
//! GoDaddy REST APIs.
//!
//! Read-only mode: set `GODADDY_READ_ONLY=1` (any non-empty value) and every
//! mutating tool — and any non-GET `raw_api` call — is refused.

use crate::godaddy::api::{
    body_view, is_set, lemma_get_in_capitals, pairs_view, prepared, ApiRequest, AuthView,
    RequestView,
};
use crate::json::{items_view, json_compact, json_pretty, outcome, texts_view, Json, JsonView};
use crate::mcp::{
    array_of, array_of_view, defs_view, described, described_view, internal, invalid, shape,
    shape_view, strict_shape, strict_shape_view, text_result, tool, typed, typed_view, unknown,
    DefView, ErrorView, ServerInfo, ToolDef, ToolError,
};
use crate::text::{
    ascii_small, decimal, empty, eq_ignore_ascii_case, number, raised_plainly, same,
    same_but_case, str_view, text_view, views,
};
use vstd::prelude::*;
use vstd::string::*;

verus! {

/// MCP server handler for the GoDaddy tool surface.
#[derive(Debug, Clone, Copy)]
pub struct Godaddy;

/// One DNS record, as the GoDaddy records endpoints exchange them.
#[derive(Debug)]
pub struct DnsRecord {
    /// A, AAAA, CNAME, MX, NS, SOA, SRV, TXT
    pub rtype: String,
    /// `@` for the apex, `www`, `*.dev`, …
    pub name: String,
    pub data: String,
    pub ttl: Option<u32>,
    pub priority: Option<u32>,
    pub weight: Option<u32>,
    pub port: Option<u32>,
    pub service: Option<String>,
    pub protocol: Option<String>,
}

#[derive(Debug)]
pub struct DomainArgs {
    pub domain: String,
}

#[derive(Debug)]
pub struct ListDomainsArgs {
    /// Filter by status, e.g. ACTIVE, EXPIRED (optional).
    pub statuses: Option<String>,
    pub limit: Option<u32>,
    /// Continue listing after this domain name (pagination marker).
    pub marker: Option<String>,
}

#[derive(Debug)]
pub struct ListRecordsArgs {
    pub domain: String,
    /// Record type filter (A, CNAME, …). Required when `name` is set.
    pub rtype: Option<String>,
    pub name: Option<String>,
}

#[derive(Debug)]
pub struct RecordsArgs {
    pub domain: String,
    pub records: Vec<DnsRecord>,
}

#[derive(Debug)]
pub struct SetRecordsArgs {
    pub domain: String,
    pub rtype: String,
    pub name: String,
    /// New value(s) for exactly this type+name; other records are untouched.
    pub records: Vec<SetRecordValue>,
}

/// Record value for the type+name-scoped PUT: type/name come from the path.
#[derive(Debug)]
pub struct SetRecordValue {
    pub data: String,
    pub ttl: Option<u32>,
    pub priority: Option<u32>,
    pub weight: Option<u32>,
    pub port: Option<u32>,
    pub service: Option<String>,
    pub protocol: Option<String>,
}

#[derive(Debug)]
pub struct DeleteRecordArgs {
    pub domain: String,
    pub rtype: String,
    pub name: String,
}

#[derive(Debug)]
pub struct NameserversArgs {
    pub domain: String,
    /// Complete replacement set, 2–13 hostnames.
    pub nameservers: Vec<String>,
}

#[derive(Debug)]
pub struct RawApiArgs {
    /// GET, POST, PUT, PATCH, DELETE
    pub method: String,
    /// Absolute API path, e.g. `/v1/subscriptions` or `/v2/customers/{id}/domains`.
    pub path: String,
    /// Query parameters as a flat string map.
    pub query: Vec<(String, Json)>,
    /// JSON request body for POST/PUT/PATCH.
    pub body: Option<Json>,
}

pub const TOOL_LIST_DOMAINS: &'static str = "list_domains";

pub const TOOL_GET_DOMAIN: &'static str = "get_domain";

pub const TOOL_CHECK_AVAILABILITY: &'static str = "check_availability";

pub const TOOL_LIST_TLDS: &'static str = "list_tlds";

pub const TOOL_LIST_DNS: &'static str = "list_dns_records";

pub const TOOL_ADD_DNS: &'static str = "add_dns_records";

pub const TOOL_SET_DNS: &'static str = "set_dns_records";

pub const TOOL_DELETE_DNS: &'static str = "delete_dns_record";

pub const TOOL_REPLACE_ALL_DNS: &'static str = "replace_all_dns_records";

pub const TOOL_SET_NAMESERVERS: &'static str = "set_nameservers";

pub const TOOL_LIST_SUBSCRIPTIONS: &'static str = "list_subscriptions";

pub const TOOL_RAW_API: &'static str = "raw_api";

pub const ABOUT_LIST_DOMAINS: &'static str =
    "List domains in the GoDaddy account (name, status, expiry). Paginate with \
     'marker' = last domain of the previous page.";

pub const ABOUT_GET_DOMAIN: &'static str =
    "Full detail for one owned domain: status, expiry, nameservers, contacts, \
     privacy, locked/renewAuto flags.";

pub const ABOUT_CHECK_AVAILABILITY: &'static str =
    "Check whether a domain is available to register, with price when it is. \
     NOTE: GoDaddy gates this endpoint behind a 50+-domain account (403 \
     ACCESS_DENIED below that — an account-tier limit, not a bug). \
     Alternatives: GoDaddy's free no-auth hosted MCP at \
     https://api.godaddy.com/v1/domains/mcp, or GODADDY_ENV=ote (test data).";

pub const ABOUT_LIST_TLDS: &'static str =
    "List TLDs GoDaddy supports for registration.";

pub const ABOUT_LIST_DNS: &'static str =
    "List DNS records for an owned domain, optionally filtered by type and name.";

pub const ABOUT_ADD_DNS: &'static str =
    "Append DNS records to a domain (existing records untouched). Safe additive \
     write.";

pub const ABOUT_SET_DNS: &'static str =
    "Replace the value(s) of exactly one type+name pair (e.g. the A records of \
     '@'). Records of other types/names are untouched. The right tool for \
     pointing a domain at a server.";

pub const ABOUT_DELETE_DNS: &'static str =
    "DESTRUCTIVE: delete all records of one type+name pair from a domain.";

pub const ABOUT_REPLACE_ALL_DNS: &'static str =
    "DESTRUCTIVE: replace the domain's ENTIRE record set with the given list — \
     anything not listed is deleted. Prefer set_dns_records / add_dns_records.";

pub const ABOUT_SET_NAMESERVERS: &'static str =
    "DESTRUCTIVE: replace the domain's nameserver set (2-13 hostnames). \
     Delegating away from GoDaddy DNS makes every dns_* tool moot for this \
     domain and a wrong set takes the site offline.";

pub const ABOUT_LIST_SUBSCRIPTIONS: &'static str =
    "List the account's product subscriptions (domains, websites+marketing, \
     email/Microsoft 365, SSL…) — the aggregate view of everything the account \
     pays GoDaddy for.";

pub const ABOUT_RAW_API: &'static str =
    "Escape hatch to ANY GoDaddy REST endpoint (api.godaddy.com; OTE via \
     GODADDY_ENV=ote): certificates, orders, agreements, shoppers, aftermarket, \
     v2 customer APIs (e.g. domain forwarding at \
     /v2/customers/{customerId}/domains/forwards/{fqdn}), v3 zones \
     (/v3/domains/zones/{zone}/dns-records — PAT auth only)… \
     Method+path+query+body with the configured auth applied. Treat non-GET \
     calls as writes with real-world effect.";

pub const INSTRUCTIONS: &'static str =
    "GoDaddy account operations: domains, DNS records, subscriptions, and a \
     raw_api escape hatch to every other GoDaddy REST endpoint. DNS writes: \
     set_dns_records for one type+name, add_dns_records to append; the two \
     DESTRUCTIVE tools delete data. Credentials come from the environment — \
     calls explain what's missing.";

/// The tools.
#[derive(Debug, Clone, Copy, PartialEq, Eq, Structural)]
pub enum GodaddyTool {
    ListDomains,
    GetDomain,
    CheckAvailability,
    ListTlds,
    ListDns,
    AddDns,
    SetDns,
    DeleteDns,
    ReplaceAllDns,
    SetNameservers,
    ListSubscriptions,
    RawApi,
}

/// A tool call with its arguments.
#[derive(Debug)]
pub enum GodaddyCall {
    ListDomains(ListDomainsArgs),
    GetDomain(DomainArgs),
    CheckAvailability(DomainArgs),
    ListTlds,
    ListDns(ListRecordsArgs),
    AddDns(RecordsArgs),
    SetDns(SetRecordsArgs),
    DeleteDns(DeleteRecordArgs),
    ReplaceAllDns(RecordsArgs),
    SetNameservers(NameserversArgs),
    ListSubscriptions,
    RawApi(RawApiArgs),
}

/// The name of a tool.
pub open spec fn name_of(t: GodaddyTool) -> Seq<char> {
    match t {
        GodaddyTool::ListDomains => TOOL_LIST_DOMAINS@,
        GodaddyTool::GetDomain => TOOL_GET_DOMAIN@,
        GodaddyTool::CheckAvailability => TOOL_CHECK_AVAILABILITY@,
        GodaddyTool::ListTlds => TOOL_LIST_TLDS@,
        GodaddyTool::ListDns => TOOL_LIST_DNS@,
        GodaddyTool::AddDns => TOOL_ADD_DNS@,
        GodaddyTool::SetDns => TOOL_SET_DNS@,
        GodaddyTool::DeleteDns => TOOL_DELETE_DNS@,
        GodaddyTool::ReplaceAllDns => TOOL_REPLACE_ALL_DNS@,
        GodaddyTool::SetNameservers => TOOL_SET_NAMESERVERS@,
        GodaddyTool::ListSubscriptions => TOOL_LIST_SUBSCRIPTIONS@,
        GodaddyTool::RawApi => TOOL_RAW_API@,
    }
}

/// The tool of that name.
pub open spec fn tool_named(name: Seq<char>) -> Option<GodaddyTool> {
    if name == TOOL_LIST_DOMAINS@ {
        Some(GodaddyTool::ListDomains)
    } else if name == TOOL_GET_DOMAIN@ {
        Some(GodaddyTool::GetDomain)
    } else if name == TOOL_CHECK_AVAILABILITY@ {
        Some(GodaddyTool::CheckAvailability)
    } else if name == TOOL_LIST_TLDS@ {
        Some(GodaddyTool::ListTlds)
    } else if name == TOOL_LIST_DNS@ {
        Some(GodaddyTool::ListDns)
    } else if name == TOOL_ADD_DNS@ {
        Some(GodaddyTool::AddDns)
    } else if name == TOOL_SET_DNS@ {
        Some(GodaddyTool::SetDns)
    } else if name == TOOL_DELETE_DNS@ {
        Some(GodaddyTool::DeleteDns)
    } else if name == TOOL_REPLACE_ALL_DNS@ {
        Some(GodaddyTool::ReplaceAllDns)
    } else if name == TOOL_SET_NAMESERVERS@ {
        Some(GodaddyTool::SetNameservers)
    } else if name == TOOL_LIST_SUBSCRIPTIONS@ {
        Some(GodaddyTool::ListSubscriptions)
    } else if name == TOOL_RAW_API@ {
        Some(GodaddyTool::RawApi)
    } else {
        None
    }
}

/// The tool that a call is for.
pub open spec fn tool_of_call(call: GodaddyCall) -> GodaddyTool {
    match call {
        GodaddyCall::ListDomains(_) => GodaddyTool::ListDomains,
        GodaddyCall::GetDomain(_) => GodaddyTool::GetDomain,
        GodaddyCall::CheckAvailability(_) => GodaddyTool::CheckAvailability,
        GodaddyCall::ListTlds => GodaddyTool::ListTlds,
        GodaddyCall::ListDns(_) => GodaddyTool::ListDns,
        GodaddyCall::AddDns(_) => GodaddyTool::AddDns,
        GodaddyCall::SetDns(_) => GodaddyTool::SetDns,
        GodaddyCall::DeleteDns(_) => GodaddyTool::DeleteDns,
        GodaddyCall::ReplaceAllDns(_) => GodaddyTool::ReplaceAllDns,
        GodaddyCall::SetNameservers(_) => GodaddyTool::SetNameservers,
        GodaddyCall::ListSubscriptions => GodaddyTool::ListSubscriptions,
        GodaddyCall::RawApi(_) => GodaddyTool::RawApi,
    }
}

/// The tool changes the account, whatever its arguments are.
pub open spec fn mutates(t: GodaddyTool) -> bool {
    match t {
        GodaddyTool::AddDns
        | GodaddyTool::SetDns
        | GodaddyTool::DeleteDns
        | GodaddyTool::ReplaceAllDns
        | GodaddyTool::SetNameservers => true,
        _ => false,
    }
}

/// The error for a write in read-only mode.
pub open spec fn write_refused(name: Seq<char>) -> ErrorView {
    invalid("'"@ + name + "' is a write operation and GODADDY_READ_ONLY is set"@)
}

/// The JSON of a record, without the members that are not set.
pub open spec fn record_json(r: DnsRecord) -> JsonView {
    JsonView::object().with("type"@, JsonView::Str(r.rtype@)).with(
        "name"@,
        JsonView::Str(r.name@),
    ).with("data"@, JsonView::Str(r.data@)).with_number("ttl"@, r.ttl).with_number(
        "priority"@,
        r.priority,
    ).with_number("weight"@, r.weight).with_number("port"@, r.port).with_text(
        "service"@,
        text_view(r.service),
    ).with_text("protocol"@, text_view(r.protocol))
}

/// The JSON of a record value, without the members that are not set.
pub open spec fn value_json(r: SetRecordValue) -> JsonView {
    JsonView::object().with("data"@, JsonView::Str(r.data@)).with_number(
        "ttl"@,
        r.ttl,
    ).with_number("priority"@, r.priority).with_number("weight"@, r.weight).with_number(
        "port"@,
        r.port,
    ).with_text("service"@, text_view(r.service)).with_text("protocol"@, text_view(r.protocol))
}

/// The JSON of a list of records.
pub open spec fn records_json(records: Seq<DnsRecord>) -> JsonView {
    JsonView::Array(Seq::new(records.len(), |i: int| record_json(records[i])))
}

/// The JSON of a list of record values.
pub open spec fn values_json(records: Seq<SetRecordValue>) -> JsonView {
    JsonView::Array(Seq::new(records.len(), |i: int| value_json(records[i])))
}

/// `pairs`, and where `value` is set, `key` with it at the end.
pub open spec fn and_pair(
    pairs: Seq<(Seq<char>, Seq<char>)>,
    key: Seq<char>,
    value: Option<Seq<char>>,
) -> Seq<(Seq<char>, Seq<char>)> {
    match value {
        Some(v) => pairs.push((key, v)),
        None => pairs,
    }
}

/// A query parameter of a raw call: a text as it stands, anything else as
/// JSON.
pub open spec fn raw_text(v: JsonView) -> Seq<char> {
    match v {
        JsonView::Str(s) => s,
        other => json_compact(other),
    }
}

/// The query parameters of a raw call.
pub open spec fn raw_query(query: Seq<(String, Json)>) -> Seq<(Seq<char>, Seq<char>)> {
    Seq::new(query.len(), |i: int| (query[i].0@, raw_text(query[i].1@)))
}

/// A read of `path`.
pub open spec fn get_of(path: Seq<char>, query: Seq<(Seq<char>, Seq<char>)>) -> RequestView {
    RequestView { method: "GET"@, path, query, body: None }
}

/// A write to `path`.
pub open spec fn write_of(
    method: Seq<char>,
    path: Seq<char>,
    body: Option<JsonView>,
) -> RequestView {
    RequestView { method, path, query: Seq::empty(), body }
}

/// The path of a domain.
pub open spec fn domain_path(domain: Seq<char>) -> Seq<char> {
    "/v1/domains/"@ + domain
}

/// The path of a domain's records.
pub open spec fn records_path(domain: Seq<char>) -> Seq<char> {
    domain_path(domain) + "/records"@
}

/// The path of a domain's records of one type.
pub open spec fn type_path(domain: Seq<char>, rtype: Seq<char>) -> Seq<char> {
    records_path(domain) + "/"@ + rtype
}

/// The path of a domain's records of one type and name.
pub open spec fn pair_path(domain: Seq<char>, rtype: Seq<char>, name: Seq<char>) -> Seq<char> {
    type_path(domain, rtype) + "/"@ + name
}

/// The query parameters of list_domains.
pub open spec fn domain_query(a: ListDomainsArgs) -> Seq<(Seq<char>, Seq<char>)> {
    let limit = match a.limit {
        Some(n) => Some(decimal(n as nat)),
        None => None,
    };
    and_pair(
        and_pair(
            and_pair(Seq::empty(), "statuses"@, text_view(a.statuses)),
            "limit"@,
            limit,
        ),
        "marker"@,
        text_view(a.marker),
    )
}

/// The request that a call makes where writes are allowed.
pub open spec fn request_of(call: GodaddyCall) -> Result<RequestView, ErrorView> {
    match call {
        GodaddyCall::ListDomains(a) => Ok(
            get_of("/v1/domains"@, domain_query(a)),
        ),
        GodaddyCall::GetDomain(a) => Ok(get_of(domain_path(a.domain@), Seq::empty())),
        GodaddyCall::CheckAvailability(a) => Ok(
            get_of("/v1/domains/available"@, seq![("domain"@, a.domain@)]),
        ),
        GodaddyCall::ListTlds => Ok(get_of("/v1/domains/tlds"@, Seq::empty())),
        GodaddyCall::ListDns(a) => match (a.rtype, a.name) {
            (Some(t), Some(n)) => Ok(get_of(pair_path(a.domain@, t@, n@), Seq::empty())),
            (Some(t), None) => Ok(get_of(type_path(a.domain@, t@), Seq::empty())),
            (None, Some(_)) => Err(invalid("'name' requires 'type'"@)),
            (None, None) => Ok(get_of(records_path(a.domain@), Seq::empty())),
        },
        GodaddyCall::AddDns(a) => Ok(
            write_of("PATCH"@, records_path(a.domain@), Some(records_json(a.records@))),
        ),
        GodaddyCall::SetDns(a) => Ok(
            write_of(
                "PUT"@,
                pair_path(a.domain@, a.rtype@, a.name@),
                Some(values_json(a.records@)),
            ),
        ),
        GodaddyCall::DeleteDns(a) => Ok(
            write_of("DELETE"@, pair_path(a.domain@, a.rtype@, a.name@), None),
        ),
        GodaddyCall::ReplaceAllDns(a) => Ok(
            write_of("PUT"@, records_path(a.domain@), Some(records_json(a.records@))),
        ),
        GodaddyCall::SetNameservers(a) => Ok(
            write_of(
                "PATCH"@,
                domain_path(a.domain@),
                Some(JsonView::object().with("nameServers"@, texts_view(views(a.nameservers@)))),
            ),
        ),
        GodaddyCall::ListSubscriptions => Ok(get_of("/v1/subscriptions"@, Seq::empty())),
        GodaddyCall::RawApi(a) => Ok(
            RequestView {
                method: a.method@,
                path: a.path@,
                query: raw_query(a.query@),
                body: body_view(a.body),
            },
        ),
    }
}

/// The call writes: its tool changes the account, or it is a raw call with
/// another method than GET.
pub open spec fn writes(call: GodaddyCall) -> bool {
    match call {
        GodaddyCall::RawApi(a) => !same_but_case(a.method@, "get"@),
        _ => mutates(tool_of_call(call)),
    }
}

/// The request that a call makes, or why it makes none.
pub open spec fn planned(call: GodaddyCall, read_only: bool) -> Result<RequestView, ErrorView> {
    if read_only && writes(call) {
        Err(write_refused(name_of(tool_of_call(call))))
    } else {
        request_of(call)
    }
}

/// What planning a call came to.
pub open spec fn planned_view(r: Result<ApiRequest, ToolError>) -> Result<RequestView, ErrorView> {
    match r {
        Ok(q) => Ok(q@),
        Err(e) => Err(e@),
    }
}

/// Whether `GODADDY_READ_ONLY` asks for read-only mode: any value but an
/// empty one does.
pub fn read_only(var: Option<&str>) -> (r: bool)
    ensures
        r == is_set(str_view(var)),
{
    match var {
        Some(v) => !empty(v),
        None => false,
    }
}

/// The error for a write in read-only mode.
fn refuse_write(name: &str) -> (r: ToolError)
    ensures
        r@ == write_refused(name@),
{
    let mut m: String = "'".to_owned();
    m.append(name);
    m.append("' is a write operation and GODADDY_READ_ONLY is set");
    ToolError::invalid_params(m)
}

/// The JSON of a record, without the members that are not set.
fn record_to_json(r: &DnsRecord) -> (j: Json)
    ensures
        j@ == record_json(*r),
{
    Json::object().with("type", Json::text(r.rtype.as_str())).with(
        "name",
        Json::text(r.name.as_str()),
    ).with("data", Json::text(r.data.as_str())).with_number("ttl", r.ttl).with_number(
        "priority",
        r.priority,
    ).with_number("weight", r.weight).with_number("port", r.port).with_text(
        "service",
        &r.service,
    ).with_text("protocol", &r.protocol)
}

/// The JSON of a record value, without the members that are not set.
fn value_to_json(r: &SetRecordValue) -> (j: Json)
    ensures
        j@ == value_json(*r),
{
    Json::object().with("data", Json::text(r.data.as_str())).with_number("ttl", r.ttl).with_number(
        "priority",
        r.priority,
    ).with_number("weight", r.weight).with_number("port", r.port).with_text(
        "service",
        &r.service,
    ).with_text("protocol", &r.protocol)
}

/// The JSON of a list of records.
fn records_to_json(records: &Vec<DnsRecord>) -> (j: Json)
    ensures
        j@ == records_json(records@),
{
    let mut out: Vec<Json> = Vec::new();
    let mut i: usize = 0;
    while i < records.len()
        invariant
            i <= records@.len(),
            out@.len() == i,
            forall|k: int| 0 <= k < i ==> (#[trigger] out@[k])@ == record_json(records@[k]),
        decreases records.len() - i,
    {
        out.push(record_to_json(&records[i]));
        i = i + 1;
    }
    assert(items_view(out@) =~= records_json(records@)->Array_0);
    Json::array(out)
}

/// The JSON of a list of record values.
fn values_to_json(records: &Vec<SetRecordValue>) -> (j: Json)
    ensures
        j@ == values_json(records@),
{
    let mut out: Vec<Json> = Vec::new();
    let mut i: usize = 0;
    while i < records.len()
        invariant
            i <= records@.len(),
            out@.len() == i,
            forall|k: int| 0 <= k < i ==> (#[trigger] out@[k])@ == value_json(records@[k]),
        decreases records.len() - i,
    {
        out.push(value_to_json(&records[i]));
        i = i + 1;
    }
    assert(items_view(out@) =~= values_json(records@)->Array_0);
    Json::array(out)
}

/// The query parameters of a raw call.
fn raw_pairs(query: &Vec<(String, Json)>) -> (r: Vec<(String, String)>)
    ensures
        pairs_view(r@) == raw_query(query@),
{
    let mut out: Vec<(String, String)> = Vec::new();
    let mut i: usize = 0;
    while i < query.len()
        invariant
            i <= query@.len(),
            out@.len() == i,
            forall|k: int|
                0 <= k < i ==> (#[trigger] out@[k]).0@ == query@[k].0@ && out@[k].1@ == raw_text(
                    query@[k].1@,
                ),
        decreases query.len() - i,
    {
        let v: String = match &query[i].1 {
            Json::Str(s) => s.clone(),
            other => other.to_compact(),
        };
        out.push((query[i].0.clone(), v));
        i = i + 1;
    }
    assert(pairs_view(out@) =~= raw_query(query@));
    out
}

/// The query parameters of list_domains.
fn domain_pairs(a: &ListDomainsArgs) -> (r: Vec<(String, String)>)
    ensures
        pairs_view(r@) == domain_query(*a),
{
    let mut q: Vec<(String, String)> = Vec::new();
    assert(pairs_view(q@) =~= Seq::empty());
    if let Some(s) = &a.statuses {
        let ghost before = q@;
        q.push(("statuses".to_owned(), s.clone()));
        assert(pairs_view(q@) =~= pairs_view(before).push(("statuses"@, s@)));
    }
    if let Some(n) = a.limit {
        let ghost before = q@;
        q.push(("limit".to_owned(), number(n as u64)));
        assert(pairs_view(q@) =~= pairs_view(before).push(("limit"@, decimal(n as nat))));
    }
    if let Some(m) = &a.marker {
        let ghost before = q@;
        q.push(("marker".to_owned(), m.clone()));
        assert(pairs_view(q@) =~= pairs_view(before).push(("marker"@, m@)));
    }
    q
}

/// The path of a domain.
fn path_of_domain(domain: &str) -> (r: String)
    ensures
        r@ == domain_path(domain@),
{
    let mut p: String = "/v1/domains/".to_owned();
    p.append(domain);
    p
}

/// The path of a domain's records.
fn path_of_records(domain: &str) -> (r: String)
    ensures
        r@ == records_path(domain@),
{
    let mut p: String = path_of_domain(domain);
    p.append("/records");
    p
}

/// The path of a domain's records of one type.
fn path_of_type(domain: &str, rtype: &str) -> (r: String)
    ensures
        r@ == type_path(domain@, rtype@),
{
    let mut p: String = path_of_records(domain);
    p.append("/");
    p.append(rtype);
    p
}

/// The path of a domain's records of one type and name.
fn path_of_pair(domain: &str, rtype: &str, name: &str) -> (r: String)
    ensures
        r@ == pair_path(domain@, rtype@, name@),
{
    let mut p: String = path_of_type(domain, rtype);
    p.append("/");
    p.append(name);
    p
}

/// A read of `path`.
fn get(path: String, query: Vec<(String, String)>) -> (r: ApiRequest)
    ensures
        r@ == get_of(path@, pairs_view(query@)),
{
    ApiRequest { method: "GET".to_owned(), path, query, body: None }
}

/// A read of `path` without query parameters.
fn get_plain(path: String) -> (r: ApiRequest)
    ensures
        r@ == get_of(path@, Seq::empty()),
{
    let r: ApiRequest = get(path, Vec::new());
    assert(r@.query =~= Seq::empty());
    r
}

/// A write to `path`.
fn write(method: &str, path: String, body: Option<Json>) -> (r: ApiRequest)
    ensures
        r@ == write_of(method@, path@, body_view(body)),
{
    let r: ApiRequest = ApiRequest { method: method.to_owned(), path, query: Vec::new(), body };
    assert(r@.query =~= Seq::empty());
    r
}

/// JSON schema fragment for one DNS record object (shared by the write tools).
pub open spec fn record_schema_view() -> JsonView {
    strict_shape_view(
        JsonView::object()
            .with("type"@, described_view("string"@, "A, AAAA, CNAME, MX, NS, SRV, TXT"@))
            .with("name"@, described_view("string"@, "'@' for apex, 'www', '*.dev', …"@))
            .with("data"@, described_view("string"@, "record value (IP, hostname, text…)"@))
            .with("ttl"@, described_view("integer"@, "seconds; GoDaddy minimum 600"@))
            .with("priority"@, typed_view("integer"@))
            .with("weight"@, typed_view("integer"@))
            .with("port"@, typed_view("integer"@))
            .with("service"@, typed_view("string"@))
            .with("protocol"@, typed_view("string"@)),
        JsonView::list()
            .item(JsonView::Str("type"@))
            .item(JsonView::Str("name"@))
            .item(JsonView::Str("data"@)),
    )
}

/// JSON schema fragment for one record value.
pub open spec fn value_schema_view() -> JsonView {
    strict_shape_view(
        JsonView::object()
            .with("data"@, typed_view("string"@))
            .with("ttl"@, typed_view("integer"@))
            .with("priority"@, typed_view("integer"@))
            .with("weight"@, typed_view("integer"@))
            .with("port"@, typed_view("integer"@))
            .with("service"@, typed_view("string"@))
            .with("protocol"@, typed_view("string"@)),
        JsonView::list().item(JsonView::Str("data"@)),
    )
}

/// JSON schema fragment for one DNS record object (shared by the write tools).
fn record_schema() -> (r: Json)
    ensures
        r@ == record_schema_view(),
        r is Object,
{
    strict_shape(
        Json::object()
            .with("type", described("string", "A, AAAA, CNAME, MX, NS, SRV, TXT"))
            .with("name", described("string", "'@' for apex, 'www', '*.dev', …"))
            .with("data", described("string", "record value (IP, hostname, text…)"))
            .with("ttl", described("integer", "seconds; GoDaddy minimum 600"))
            .with("priority", typed("integer"))
            .with("weight", typed("integer"))
            .with("port", typed("integer"))
            .with("service", typed("string"))
            .with("protocol", typed("string")),
        Json::list().item(Json::text("type")).item(Json::text("name")).item(Json::text("data")),
    )
}

/// JSON schema fragment for one record value.
fn value_schema() -> (r: Json)
    ensures
        r@ == value_schema_view(),
        r is Object,
{
    strict_shape(
        Json::object()
            .with("data", typed("string"))
            .with("ttl", typed("integer"))
            .with("priority", typed("integer"))
            .with("weight", typed("integer"))
            .with("port", typed("integer"))
            .with("service", typed("string"))
            .with("protocol", typed("string")),
        Json::list().item(Json::text("data")),
    )
}

/// The static tool surface.
pub open spec fn tools_surface() -> Seq<DefView> {
    Seq::empty()
        .push(
            DefView {
                name: TOOL_LIST_DOMAINS@,
                description: ABOUT_LIST_DOMAINS@,
                input_schema: shape_view(
                    JsonView::object()
                        .with(
                            "statuses"@,
                            described_view("string"@, "comma-separated filter, e.g. ACTIVE"@),
                        )
                        .with("limit"@, typed_view("integer"@))
                        .with("marker"@, typed_view("string"@)),
                ),
            },
        )
        .push(
            DefView {
                name: TOOL_GET_DOMAIN@,
                description: ABOUT_GET_DOMAIN@,
                input_schema: strict_shape_view(
                    JsonView::object().with("domain"@, typed_view("string"@)),
                    JsonView::list().item(JsonView::Str("domain"@)),
                ),
            },
        )
        .push(
            DefView {
                name: TOOL_CHECK_AVAILABILITY@,
                description: ABOUT_CHECK_AVAILABILITY@,
                input_schema: strict_shape_view(
                    JsonView::object().with("domain"@, typed_view("string"@)),
                    JsonView::list().item(JsonView::Str("domain"@)),
                ),
            },
        )
        .push(
            DefView {
                name: TOOL_LIST_TLDS@,
                description: ABOUT_LIST_TLDS@,
                input_schema: shape_view(JsonView::object()),
            },
        )
        .push(
            DefView {
                name: TOOL_LIST_DNS@,
                description: ABOUT_LIST_DNS@,
                input_schema: strict_shape_view(
                    JsonView::object()
                        .with("domain"@, typed_view("string"@))
                        .with(
                            "type"@,
                            described_view("string"@, "A, AAAA, CNAME, MX, NS, SRV, TXT"@),
                        )
                        .with("name"@, described_view("string"@, "requires 'type' when set"@)),
                    JsonView::list().item(JsonView::Str("domain"@)),
                ),
            },
        )
        .push(
            DefView {
                name: TOOL_ADD_DNS@,
                description: ABOUT_ADD_DNS@,
                input_schema: strict_shape_view(
                    JsonView::object()
                        .with("domain"@, typed_view("string"@))
                        .with("records"@, array_of_view(record_schema_view())),
                    JsonView::list().item(JsonView::Str("domain"@)).item(JsonView::Str("records"@)),
                ),
            },
        )
        .push(
            DefView {
                name: TOOL_SET_DNS@,
                description: ABOUT_SET_DNS@,
                input_schema: strict_shape_view(
                    JsonView::object()
                        .with("domain"@, typed_view("string"@))
                        .with("type"@, typed_view("string"@))
                        .with("name"@, typed_view("string"@))
                        .with("records"@, array_of_view(value_schema_view())),
                    JsonView::list()
                        .item(JsonView::Str("domain"@))
                        .item(JsonView::Str("type"@))
                        .item(JsonView::Str("name"@))
                        .item(JsonView::Str("records"@)),
                ),
            },
        )
        .push(
            DefView {
                name: TOOL_DELETE_DNS@,
                description: ABOUT_DELETE_DNS@,
                input_schema: strict_shape_view(
                    JsonView::object()
                        .with("domain"@, typed_view("string"@))
                        .with("type"@, typed_view("string"@))
                        .with("name"@, typed_view("string"@)),
                    JsonView::list()
                        .item(JsonView::Str("domain"@))
                        .item(JsonView::Str("type"@))
                        .item(JsonView::Str("name"@)),
                ),
            },
        )
        .push(
            DefView {
                name: TOOL_REPLACE_ALL_DNS@,
                description: ABOUT_REPLACE_ALL_DNS@,
                input_schema: strict_shape_view(
                    JsonView::object()
                        .with("domain"@, typed_view("string"@))
                        .with("records"@, array_of_view(record_schema_view())),
                    JsonView::list().item(JsonView::Str("domain"@)).item(JsonView::Str("records"@)),
                ),
            },
        )
        .push(
            DefView {
                name: TOOL_SET_NAMESERVERS@,
                description: ABOUT_SET_NAMESERVERS@,
                input_schema: strict_shape_view(
                    JsonView::object()
                        .with("domain"@, typed_view("string"@))
                        .with("nameservers"@, array_of_view(typed_view("string"@))),
                    JsonView::list()
                        .item(JsonView::Str("domain"@))
                        .item(JsonView::Str("nameservers"@)),
                ),
            },
        )
        .push(
            DefView {
                name: TOOL_LIST_SUBSCRIPTIONS@,
                description: ABOUT_LIST_SUBSCRIPTIONS@,
                input_schema: shape_view(JsonView::object()),
            },
        )
        .push(
            DefView {
                name: TOOL_RAW_API@,
                description: ABOUT_RAW_API@,
                input_schema: strict_shape_view(
                    JsonView::object()
                        .with(
                            "method"@,
                            described_view("string"@, "GET, POST, PUT, PATCH, DELETE"@),
                        )
                        .with(
                            "path"@,
                            described_view(
                                "string"@,
                                "e.g. /v1/agreements or /v1/certificates/{id}"@,
                            ),
                        )
                        .with(
                            "query"@,
                            described_view("object"@, "flat string map of query params"@),
                        )
                        .with(
                            "body"@,
                            JsonView::object()
                                .with(
                                    "description"@,
                                    JsonView::Str("JSON body for POST/PUT/PATCH"@),
                                ),
                        ),
                    JsonView::list().item(JsonView::Str("method"@)).item(JsonView::Str("path"@)),
                ),
            },
        )
}

impl Godaddy {
    /// The static tool surface.
    pub fn tools() -> (r: Vec<ToolDef>)
        ensures
            defs_view(r@) == tools_surface(),
    {
        let mut v: Vec<ToolDef> = Vec::new();
        v.push(
            tool(
                TOOL_LIST_DOMAINS,
                ABOUT_LIST_DOMAINS,
                shape(
                    Json::object()
                        .with(
                            "statuses",
                            described("string", "comma-separated filter, e.g. ACTIVE"),
                        )
                        .with("limit", typed("integer"))
                        .with("marker", typed("string")),
                ),
            ),
        );
        v.push(
            tool(
                TOOL_GET_DOMAIN,
                ABOUT_GET_DOMAIN,
                strict_shape(
                    Json::object().with("domain", typed("string")),
                    Json::list().item(Json::text("domain")),
                ),
            ),
        );
        v.push(
            tool(
                TOOL_CHECK_AVAILABILITY,
                ABOUT_CHECK_AVAILABILITY,
                strict_shape(
                    Json::object().with("domain", typed("string")),
                    Json::list().item(Json::text("domain")),
                ),
            ),
        );
        v.push(tool(TOOL_LIST_TLDS, ABOUT_LIST_TLDS, shape(Json::object())));
        v.push(
            tool(
                TOOL_LIST_DNS,
                ABOUT_LIST_DNS,
                strict_shape(
                    Json::object()
                        .with("domain", typed("string"))
                        .with("type", described("string", "A, AAAA, CNAME, MX, NS, SRV, TXT"))
                        .with("name", described("string", "requires 'type' when set")),
                    Json::list().item(Json::text("domain")),
                ),
            ),
        );
        v.push(
            tool(
                TOOL_ADD_DNS,
                ABOUT_ADD_DNS,
                strict_shape(
                    Json::object()
                        .with("domain", typed("string"))
                        .with("records", array_of(record_schema())),
                    Json::list().item(Json::text("domain")).item(Json::text("records")),
                ),
            ),
        );
        v.push(
            tool(
                TOOL_SET_DNS,
                ABOUT_SET_DNS,
                strict_shape(
                    Json::object()
                        .with("domain", typed("string"))
                        .with("type", typed("string"))
                        .with("name", typed("string"))
                        .with("records", array_of(value_schema())),
                    Json::list()
                        .item(Json::text("domain"))
                        .item(Json::text("type"))
                        .item(Json::text("name"))
                        .item(Json::text("records")),
                ),
            ),
        );
        v.push(
            tool(
                TOOL_DELETE_DNS,
                ABOUT_DELETE_DNS,
                strict_shape(
                    Json::object()
                        .with("domain", typed("string"))
                        .with("type", typed("string"))
                        .with("name", typed("string")),
                    Json::list()
                        .item(Json::text("domain"))
                        .item(Json::text("type"))
                        .item(Json::text("name")),
                ),
            ),
        );
        v.push(
            tool(
                TOOL_REPLACE_ALL_DNS,
                ABOUT_REPLACE_ALL_DNS,
                strict_shape(
                    Json::object()
                        .with("domain", typed("string"))
                        .with("records", array_of(record_schema())),
                    Json::list().item(Json::text("domain")).item(Json::text("records")),
                ),
            ),
        );
        v.push(
            tool(
                TOOL_SET_NAMESERVERS,
                ABOUT_SET_NAMESERVERS,
                strict_shape(
                    Json::object()
                        .with("domain", typed("string"))
                        .with("nameservers", array_of(typed("string"))),
                    Json::list().item(Json::text("domain")).item(Json::text("nameservers")),
                ),
            ),
        );
        v.push(tool(TOOL_LIST_SUBSCRIPTIONS, ABOUT_LIST_SUBSCRIPTIONS, shape(Json::object())));
        v.push(
            tool(
                TOOL_RAW_API,
                ABOUT_RAW_API,
                strict_shape(
                    Json::object()
                        .with("method", described("string", "GET, POST, PUT, PATCH, DELETE"))
                        .with(
                            "path",
                            described("string", "e.g. /v1/agreements or /v1/certificates/{id}"),
                        )
                        .with("query", described("object", "flat string map of query params"))
                        .with(
                            "body",
                            Json::object()
                                .with("description", Json::text("JSON body for POST/PUT/PATCH")),
                        ),
                    Json::list().item(Json::text("method")).item(Json::text("path")),
                ),
            ),
        );
        assert(defs_view(v@) =~= tools_surface());
        v
    }

    /// A handler.
    pub fn new() -> (r: Godaddy)
        ensures
            r == Godaddy,
    {
        Godaddy
    }

    /// How the server introduces itself.
    pub fn get_info() -> (r: ServerInfo)
        ensures
            r.name@ == "dangler-godaddy"@,
            r.instructions@ == INSTRUCTIONS@,
    {
        ServerInfo { name: "dangler-godaddy", instructions: INSTRUCTIONS }
    }

    /// The tool of that name.
    fn find(name: &str) -> (r: Option<GodaddyTool>)
        ensures
            r == tool_named(name@),
    {
        if same(name, TOOL_LIST_DOMAINS) {
            Some(GodaddyTool::ListDomains)
        } else if same(name, TOOL_GET_DOMAIN) {
            Some(GodaddyTool::GetDomain)
        } else if same(name, TOOL_CHECK_AVAILABILITY) {
            Some(GodaddyTool::CheckAvailability)
        } else if same(name, TOOL_LIST_TLDS) {
            Some(GodaddyTool::ListTlds)
        } else if same(name, TOOL_LIST_DNS) {
            Some(GodaddyTool::ListDns)
        } else if same(name, TOOL_ADD_DNS) {
            Some(GodaddyTool::AddDns)
        } else if same(name, TOOL_SET_DNS) {
            Some(GodaddyTool::SetDns)
        } else if same(name, TOOL_DELETE_DNS) {
            Some(GodaddyTool::DeleteDns)
        } else if same(name, TOOL_REPLACE_ALL_DNS) {
            Some(GodaddyTool::ReplaceAllDns)
        } else if same(name, TOOL_SET_NAMESERVERS) {
            Some(GodaddyTool::SetNameservers)
        } else if same(name, TOOL_LIST_SUBSCRIPTIONS) {
            Some(GodaddyTool::ListSubscriptions)
        } else if same(name, TOOL_RAW_API) {
            Some(GodaddyTool::RawApi)
        } else {
            None
        }
    }

    /// The tool that a request names. In read-only mode a mutating tool is
    /// refused before its arguments are looked at.
    pub fn route(name: &str, read_only: bool) -> (r: Result<GodaddyTool, ToolError>)
        ensures
            match tool_named(name@) {
                Some(t) => if read_only && mutates(t) {
                    r matches Err(e) && e@ == write_refused(name@)
                } else {
                    r == Ok::<GodaddyTool, ToolError>(t)
                },
                None => r matches Err(e) && e@ == unknown(name@),
            },
    {
        match Godaddy::find(name) {
            Some(t) => {
                let change: bool = match t {
                    GodaddyTool::AddDns => true,
                    GodaddyTool::SetDns => true,
                    GodaddyTool::DeleteDns => true,
                    GodaddyTool::ReplaceAllDns => true,
                    GodaddyTool::SetNameservers => true,
                    _ => false,
                };
                if read_only && change {
                    Err(refuse_write(name))
                } else {
                    Ok(t)
                }
            },
            None => Err(ToolError::unknown_tool(name)),
        }
    }

    /// The API request that a call makes.
    pub fn plan(call: &GodaddyCall, read_only: bool) -> (r: Result<ApiRequest, ToolError>)
        ensures
            planned_view(r) == planned(*call, read_only),
    {
        match call {
            GodaddyCall::ListDomains(a) => Ok(get("/v1/domains".to_owned(), domain_pairs(a))),
            GodaddyCall::GetDomain(a) => Ok(get_plain(path_of_domain(a.domain.as_str()))),
            GodaddyCall::CheckAvailability(a) => {
                let mut q: Vec<(String, String)> = Vec::new();
                q.push(("domain".to_owned(), a.domain.clone()));
                assert(pairs_view(q@) =~= seq![("domain"@, a.domain@)]);
                Ok(get("/v1/domains/available".to_owned(), q))
            },
            GodaddyCall::ListTlds => Ok(get_plain("/v1/domains/tlds".to_owned())),
            GodaddyCall::ListDns(a) => match (&a.rtype, &a.name) {
                (Some(t), Some(n)) => Ok(
                    get_plain(path_of_pair(a.domain.as_str(), t.as_str(), n.as_str())),
                ),
                (Some(t), None) => Ok(get_plain(path_of_type(a.domain.as_str(), t.as_str()))),
                (None, Some(_)) => Err(
                    ToolError::invalid_params("'name' requires 'type'".to_owned()),
                ),
                (None, None) => Ok(get_plain(path_of_records(a.domain.as_str()))),
            },
            GodaddyCall::AddDns(a) => {
                if read_only {
                    return Err(refuse_write(TOOL_ADD_DNS));
                }
                let body: Json = records_to_json(&a.records);
                Ok(write("PATCH", path_of_records(a.domain.as_str()), Some(body)))
            },
            GodaddyCall::SetDns(a) => {
                if read_only {
                    return Err(refuse_write(TOOL_SET_DNS));
                }
                let body: Json = values_to_json(&a.records);
                let path: String = path_of_pair(
                    a.domain.as_str(),
                    a.rtype.as_str(),
                    a.name.as_str(),
                );
                Ok(write("PUT", path, Some(body)))
            },
            GodaddyCall::DeleteDns(a) => {
                if read_only {
                    return Err(refuse_write(TOOL_DELETE_DNS));
                }
                let path: String = path_of_pair(
                    a.domain.as_str(),
                    a.rtype.as_str(),
                    a.name.as_str(),
                );
                Ok(write("DELETE", path, None))
            },
            GodaddyCall::ReplaceAllDns(a) => {
                if read_only {
                    return Err(refuse_write(TOOL_REPLACE_ALL_DNS));
                }
                let body: Json = records_to_json(&a.records);
                Ok(write("PUT", path_of_records(a.domain.as_str()), Some(body)))
            },
            GodaddyCall::SetNameservers(a) => {
                if read_only {
                    return Err(refuse_write(TOOL_SET_NAMESERVERS));
                }
                let body: Json = Json::object().with("nameServers", Json::texts(&a.nameservers));
                Ok(write("PATCH", path_of_domain(a.domain.as_str()), Some(body)))
            },
            GodaddyCall::ListSubscriptions => Ok(get_plain("/v1/subscriptions".to_owned())),
            GodaddyCall::RawApi(a) => {
                if read_only && !eq_ignore_ascii_case(a.method.as_str(), "get") {
                    return Err(refuse_write(TOOL_RAW_API));
                }
                let body: Option<Json> = match &a.body {
                    Some(j) => Some(j.copy()),
                    None => None,
                };
                Ok(
                    ApiRequest {
                        method: a.method.clone(),
                        path: a.path.clone(),
                        query: raw_pairs(&a.query),
                        body,
                    },
                )
            },
        }
    }

    /// The answer to a call whose request came to `result`.
    pub fn reply(result: Result<Json, String>) -> (r: Result<String, ToolError>)
        ensures
            match outcome(result) {
                Ok(j) => r matches Ok(t) && t@ == json_pretty(j),
                Err(e) => r matches Err(x) && x@ == internal(e),
            },
    {
        match result {
            Ok(j) => Ok(text_result(&j)),
            Err(e) => Err(ToolError::internal_error(e)),
        }
    }
}

/// Each tool has a name of its own, by which it is found.
pub proof fn law_names_are_distinct(t: GodaddyTool)
    ensures
        tool_named(name_of(t)) == Some(t),
{
    reveal_strlit("list_domains");
    reveal_strlit("get_domain");
    reveal_strlit("check_availability");
    reveal_strlit("list_tlds");
    reveal_strlit("list_dns_records");
    reveal_strlit("add_dns_records");
    reveal_strlit("set_dns_records");
    reveal_strlit("delete_dns_record");
    reveal_strlit("replace_all_dns_records");
    reveal_strlit("set_nameservers");
    reveal_strlit("list_subscriptions");
    reveal_strlit("raw_api");
    assert("list_domains"@.len() == 12);
    assert("get_domain"@.len() == 10);
    assert("check_availability"@.len() == 18);
    assert("list_tlds"@.len() == 9);
    assert("list_dns_records"@.len() == 16);
    assert("add_dns_records"@.len() == 15);
    assert("set_dns_records"@.len() == 15);
    assert("delete_dns_record"@.len() == 17);
    assert("replace_all_dns_records"@.len() == 23);
    assert("set_nameservers"@.len() == 15);
    assert("list_subscriptions"@.len() == 18);
    assert("raw_api"@.len() == 7);
    assert("check_availability"@[0] != "list_subscriptions"@[0]);
    assert("add_dns_records"@[0] != "set_dns_records"@[0]);
    assert("add_dns_records"@[0] != "set_nameservers"@[0]);
    assert("set_dns_records"@[4] != "set_nameservers"@[4]);
}

/// The tools on offer are exactly those that a request can name.
pub proof fn law_offered_is_routed(name: Seq<char>)
    ensures
        (exists|i: int| 0 <= i < tools_surface().len() && (#[trigger] tools_surface()[i]).name
            == name) <==> tool_named(name) is Some,
{
    let all = tools_surface();
    assert(all.len() == 12);
    assert(all[0].name == TOOL_LIST_DOMAINS@);
    assert(all[1].name == TOOL_GET_DOMAIN@);
    assert(all[2].name == TOOL_CHECK_AVAILABILITY@);
    assert(all[3].name == TOOL_LIST_TLDS@);
    assert(all[4].name == TOOL_LIST_DNS@);
    assert(all[5].name == TOOL_ADD_DNS@);
    assert(all[6].name == TOOL_SET_DNS@);
    assert(all[7].name == TOOL_DELETE_DNS@);
    assert(all[8].name == TOOL_REPLACE_ALL_DNS@);
    assert(all[9].name == TOOL_SET_NAMESERVERS@);
    assert(all[10].name == TOOL_LIST_SUBSCRIPTIONS@);
    assert(all[11].name == TOOL_RAW_API@);
}

/// In read-only mode every request that is planned reads: its method is GET,
/// in whatever case. So every mutating tool, and every raw call with another
/// method, is refused.
pub proof fn law_read_only_only_reads(call: GodaddyCall)
    ensures
        planned(call, true) matches Ok(q) ==> same_but_case(q.method, "get"@),
        writes(call) ==> planned(call, true) == Err::<RequestView, ErrorView>(
            write_refused(name_of(tool_of_call(call))),
        ),
        mutates(tool_of_call(call)) ==> writes(call),
{
    lemma_get_is_get();
}

/// In read-only mode nothing but GET goes over the wire. That an ASCII method
/// is plain in capital letters is what the request that goes out promises.
pub proof fn law_read_only_sends_only_get(
    call: GodaddyCall,
    request: RequestView,
    auth: AuthView,
    base: Seq<char>,
    shopper: Option<Seq<char>>,
)
    requires
        planned(call, true) == Ok::<RequestView, ErrorView>(request),
        raised_plainly(request.method),
    ensures
        prepared(auth, request, base, shopper) matches Ok(wire) ==> wire.method == "GET"@,
{
    law_read_only_only_reads(call);
    lemma_get_in_capitals(request.method);
}

/// GET is GET in whatever case.
proof fn lemma_get_is_get()
    ensures
        same_but_case("GET"@, "get"@),
{
    reveal_strlit("GET");
    reveal_strlit("get");
}

/// Read-only mode takes nothing from reading: a call whose request has the
/// method GET is planned the same in either mode.
pub proof fn law_reads_are_unaffected(call: GodaddyCall)
    ensures
        planned(call, false) matches Ok(q) ==> same_but_case(q.method, "get"@) ==> planned(
            call,
            true,
        ) == planned(call, false),
        !writes(call) ==> planned(call, true) == planned(call, false),
{
    reveal_strlit("get");
    reveal_strlit("PATCH");
    reveal_strlit("PUT");
    reveal_strlit("DELETE");
    assert(ascii_small("PUT"@[0]) != ascii_small("get"@[0]));
}

/// Where writes are allowed, a call fails to be planned in one way only: a
/// listing that filters by name without a type.
pub proof fn law_every_other_call_is_planned(call: GodaddyCall)
    ensures
        planned(call, false) is Err <==> (call matches GodaddyCall::ListDns(a) && a.rtype is None
            && a.name is Some),
{
}

} // verus!
