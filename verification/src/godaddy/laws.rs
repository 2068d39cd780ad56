//! What the GoDaddy server does, told by what goes in and what comes out.

use crate::godaddy::server::{
    and_pair, domain_query, law_names_are_distinct, mutates, name_of, planned, record_json,
    tool_named, value_json, write_refused, DnsRecord, GodaddyCall, GodaddyTool, ListDomainsArgs,
    SetRecordValue,
};
use crate::json::{json_compact, texts_view, JsonView};
use crate::json_laws::{
    law_empty_object_has_no_member, law_texts_stand_in_their_places, law_with_adds_one_member,
    law_with_number_adds_what_is_set, law_with_text_adds_what_is_set, number_member, one_if,
    text_member,
};
use crate::mcp::ErrorKind;
use crate::text::{decimal, same_but_case, text_view, views};
use vstd::prelude::*;
use vstd::string::*;

verus! {

/// The names that a record's fields are sent under differ.
proof fn lemma_field_names_differ()
    ensures
        "type"@.len() == 4,
        "name"@.len() == 4,
        "data"@.len() == 4,
        "port"@.len() == 4,
        "ttl"@.len() == 3,
        "priority"@.len() == 8,
        "protocol"@.len() == 8,
        "weight"@.len() == 6,
        "service"@.len() == 7,
        "type"@ != "name"@,
        "type"@ != "data"@,
        "type"@ != "port"@,
        "name"@ != "data"@,
        "name"@ != "port"@,
        "data"@ != "port"@,
        "priority"@ != "protocol"@,
{
    reveal_strlit("type");
    reveal_strlit("name");
    reveal_strlit("data");
    reveal_strlit("port");
    reveal_strlit("ttl");
    reveal_strlit("priority");
    reveal_strlit("protocol");
    reveal_strlit("weight");
    reveal_strlit("service");
    assert("type"@[0] == 't' && "name"@[0] == 'n' && "data"@[0] == 'd' && "port"@[0] == 'p');
    assert("priority"@[2] == 'i' && "protocol"@[2] == 'o');
}

/// A record is sent field by field: each field under its own name, exactly
/// where it is set, with just its value, and nothing else is sent for it.
pub proof fn law_record_is_sent_field_by_field(r: DnsRecord)
    ensures
        record_json(r) is Object,
        record_json(r).member("type"@) == Some(JsonView::Str(r.rtype@)),
        record_json(r).member("name"@) == Some(JsonView::Str(r.name@)),
        record_json(r).member("data"@) == Some(JsonView::Str(r.data@)),
        record_json(r).member("ttl"@) == number_member(r.ttl),
        record_json(r).member("priority"@) == number_member(r.priority),
        record_json(r).member("weight"@) == number_member(r.weight),
        record_json(r).member("port"@) == number_member(r.port),
        record_json(r).member("service"@) == text_member(r.service),
        record_json(r).member("protocol"@) == text_member(r.protocol),
        record_json(r)->Object_0.len() == 3 + one_if(r.ttl) + one_if(r.priority) + one_if(r.weight)
            + one_if(r.port) + one_if(r.service) + one_if(r.protocol),
{
    lemma_field_names_differ();
    law_empty_object_has_no_member();
    let a = JsonView::object();
    law_with_adds_one_member(a, "type"@, JsonView::Str(r.rtype@));
    let b = a.with("type"@, JsonView::Str(r.rtype@));
    law_with_adds_one_member(b, "name"@, JsonView::Str(r.name@));
    let c = b.with("name"@, JsonView::Str(r.name@));
    law_with_adds_one_member(c, "data"@, JsonView::Str(r.data@));
    let d = c.with("data"@, JsonView::Str(r.data@));
    law_with_number_adds_what_is_set(d, "ttl"@, r.ttl);
    let e = d.with_number("ttl"@, r.ttl);
    law_with_number_adds_what_is_set(e, "priority"@, r.priority);
    let f = e.with_number("priority"@, r.priority);
    law_with_number_adds_what_is_set(f, "weight"@, r.weight);
    let g = f.with_number("weight"@, r.weight);
    law_with_number_adds_what_is_set(g, "port"@, r.port);
    let h = g.with_number("port"@, r.port);
    law_with_text_adds_what_is_set(h, "service"@, text_view(r.service));
    let i = h.with_text("service"@, text_view(r.service));
    law_with_text_adds_what_is_set(i, "protocol"@, text_view(r.protocol));
}

/// A record value is sent field by field, as a record is; its type and name
/// are no part of it.
pub proof fn law_value_is_sent_field_by_field(r: SetRecordValue)
    ensures
        value_json(r) is Object,
        value_json(r).member("data"@) == Some(JsonView::Str(r.data@)),
        value_json(r).member("ttl"@) == number_member(r.ttl),
        value_json(r).member("priority"@) == number_member(r.priority),
        value_json(r).member("weight"@) == number_member(r.weight),
        value_json(r).member("port"@) == number_member(r.port),
        value_json(r).member("service"@) == text_member(r.service),
        value_json(r).member("protocol"@) == text_member(r.protocol),
        value_json(r)->Object_0.len() == 1 + one_if(r.ttl) + one_if(r.priority) + one_if(r.weight)
            + one_if(r.port) + one_if(r.service) + one_if(r.protocol),
{
    lemma_field_names_differ();
    law_empty_object_has_no_member();
    let c = JsonView::object();
    law_with_adds_one_member(c, "data"@, JsonView::Str(r.data@));
    let d = c.with("data"@, JsonView::Str(r.data@));
    law_with_number_adds_what_is_set(d, "ttl"@, r.ttl);
    let e = d.with_number("ttl"@, r.ttl);
    law_with_number_adds_what_is_set(e, "priority"@, r.priority);
    let f = e.with_number("priority"@, r.priority);
    law_with_number_adds_what_is_set(f, "weight"@, r.weight);
    let g = f.with_number("weight"@, r.weight);
    law_with_number_adds_what_is_set(g, "port"@, r.port);
    let h = g.with_number("port"@, r.port);
    law_with_text_adds_what_is_set(h, "service"@, text_view(r.service));
    let i = h.with_text("service"@, text_view(r.service));
    law_with_text_adds_what_is_set(i, "protocol"@, text_view(r.protocol));
}

/// What is sent for a record can be read back: two records that are sent alike
/// agree in every field.
pub proof fn law_record_can_be_read_back(a: DnsRecord, b: DnsRecord)
    requires
        record_json(a) == record_json(b),
    ensures
        a.rtype@ == b.rtype@,
        a.name@ == b.name@,
        a.data@ == b.data@,
        a.ttl == b.ttl,
        a.priority == b.priority,
        a.weight == b.weight,
        a.port == b.port,
        text_view(a.service) == text_view(b.service),
        text_view(a.protocol) == text_view(b.protocol),
{
    law_record_is_sent_field_by_field(a);
    law_record_is_sent_field_by_field(b);
}

/// A record value can be read back as well.
pub proof fn law_value_can_be_read_back(a: SetRecordValue, b: SetRecordValue)
    requires
        value_json(a) == value_json(b),
    ensures
        a.data@ == b.data@,
        a.ttl == b.ttl,
        a.priority == b.priority,
        a.weight == b.weight,
        a.port == b.port,
        text_view(a.service) == text_view(b.service),
        text_view(a.protocol) == text_view(b.protocol),
{
    law_value_is_sent_field_by_field(a);
    law_value_is_sent_field_by_field(b);
}

/// The body of a request is a list of just these records, in their order.
pub open spec fn lists_records(body: Option<JsonView>, records: Seq<DnsRecord>) -> bool {
    body matches Some(JsonView::Array(items)) && items.len() == records.len() && forall|i: int|
        0 <= i < records.len() ==> (#[trigger] items[i]) == record_json(records[i])
}

/// The body of a request is a list of just these values, in their order.
pub open spec fn lists_values(body: Option<JsonView>, records: Seq<SetRecordValue>) -> bool {
    body matches Some(JsonView::Array(items)) && items.len() == records.len() && forall|i: int|
        0 <= i < records.len() ==> (#[trigger] items[i]) == value_json(records[i])
}

/// Where writes are allowed, each write goes to its own place with its own
/// method: adding appends to a domain's records, replacing them all puts the
/// list in their stead, setting and deleting touch one type and name, and the
/// nameservers belong to the domain itself. What is written is what the call
/// gives, whole and in order.
pub proof fn law_writes_go_where_they_belong(call: GodaddyCall)
    ensures
        call matches GodaddyCall::AddDns(a) ==> {
            &&& planned(call, false) matches Ok(q)
            &&& q.method == "PATCH"@
            &&& q.path == "/v1/domains/"@ + a.domain@ + "/records"@
            &&& q.query.len() == 0
            &&& lists_records(q.body, a.records@)
        },
        call matches GodaddyCall::ReplaceAllDns(a) ==> {
            &&& planned(call, false) matches Ok(q)
            &&& q.method == "PUT"@
            &&& q.path == "/v1/domains/"@ + a.domain@ + "/records"@
            &&& q.query.len() == 0
            &&& lists_records(q.body, a.records@)
        },
        call matches GodaddyCall::SetDns(a) ==> {
            &&& planned(call, false) matches Ok(q)
            &&& q.method == "PUT"@
            &&& q.path == "/v1/domains/"@ + a.domain@ + "/records/"@ + a.rtype@ + "/"@ + a.name@
            &&& q.query.len() == 0
            &&& lists_values(q.body, a.records@)
        },
        call matches GodaddyCall::DeleteDns(a) ==> {
            &&& planned(call, false) matches Ok(q)
            &&& q.method == "DELETE"@
            &&& q.path == "/v1/domains/"@ + a.domain@ + "/records/"@ + a.rtype@ + "/"@ + a.name@
            &&& q.query.len() == 0
            &&& q.body is None
        },
        call matches GodaddyCall::SetNameservers(a) ==> {
            &&& planned(call, false) matches Ok(q)
            &&& q.method == "PATCH"@
            &&& q.path == "/v1/domains/"@ + a.domain@
            &&& q.query.len() == 0
            &&& q.body matches Some(body)
            &&& body is Object
            &&& body->Object_0.len() == 1
            &&& body.member("nameServers"@) matches Some(JsonView::Array(held))
            &&& held.len() == a.nameservers@.len()
            &&& forall|i: int|
                0 <= i < held.len() ==> (#[trigger] held[i]) == JsonView::Str(a.nameservers@[i]@)
        },
{
    lemma_records_slash();
    match call {
        GodaddyCall::SetDns(a) => {
            assert("/v1/domains/"@ + a.domain@ + "/records"@ + "/"@ + a.rtype@ + "/"@ + a.name@
                =~= "/v1/domains/"@ + a.domain@ + "/records/"@ + a.rtype@ + "/"@ + a.name@);
        },
        GodaddyCall::DeleteDns(a) => {
            assert("/v1/domains/"@ + a.domain@ + "/records"@ + "/"@ + a.rtype@ + "/"@ + a.name@
                =~= "/v1/domains/"@ + a.domain@ + "/records/"@ + a.rtype@ + "/"@ + a.name@);
        },
        GodaddyCall::SetNameservers(a) => {
            let names = texts_view(views(a.nameservers@));
            law_empty_object_has_no_member();
            law_with_adds_one_member(JsonView::object(), "nameServers"@, names);
            law_texts_stand_in_their_places(views(a.nameservers@));
        },
        _ => {},
    }
}

proof fn lemma_records_slash()
    ensures
        "/records/"@ == "/records"@ + "/"@,
{
    reveal_strlit("/records/");
    reveal_strlit("/records");
    reveal_strlit("/");
    assert("/records/"@ =~= "/records"@ + "/"@);
}

/// Each read is a GET without a body of its own place, in either mode: the
/// domains, one of them, the availability of one by its name in the query, the
/// endings, the subscriptions, and a domain's records, all of them or those of
/// one type or of one type and name.
pub proof fn law_reads_go_where_they_belong(call: GodaddyCall, read_only: bool)
    ensures
        (call is ListDomains || call is GetDomain || call is CheckAvailability || call is ListTlds
            || call is ListSubscriptions || call is ListDns) ==> (planned(call, read_only) matches Ok(
            q,
        ) ==> q.method == "GET"@ && q.body is None),
        call is ListDomains ==> (planned(call, read_only) matches Ok(q) && q.path
            == "/v1/domains"@),
        call matches GodaddyCall::GetDomain(a) ==> (planned(call, read_only) matches Ok(q) && q.path
            == "/v1/domains/"@ + a.domain@ && q.query.len() == 0),
        call matches GodaddyCall::CheckAvailability(a) ==> (planned(call, read_only) matches Ok(q)
            && q.path == "/v1/domains/available"@ && q.query.len() == 1 && q.query[0] == (
            "domain"@,
            a.domain@,
        )),
        call is ListTlds ==> (planned(call, read_only) matches Ok(q) && q.path
            == "/v1/domains/tlds"@ && q.query.len() == 0),
        call is ListSubscriptions ==> (planned(call, read_only) matches Ok(q) && q.path
            == "/v1/subscriptions"@ && q.query.len() == 0),
        call matches GodaddyCall::ListDns(a) ==> match (a.rtype, a.name) {
            (None, None) => planned(call, read_only) matches Ok(q) && q.path == "/v1/domains/"@
                + a.domain@ + "/records"@ && q.query.len() == 0,
            (Some(t), None) => planned(call, read_only) matches Ok(q) && q.path == "/v1/domains/"@
                + a.domain@ + "/records/"@ + t@ && q.query.len() == 0,
            (Some(t), Some(n)) => planned(call, read_only) matches Ok(q) && q.path
                == "/v1/domains/"@ + a.domain@ + "/records/"@ + t@ + "/"@ + n@ && q.query.len()
                == 0,
            (None, Some(_)) => planned(call, read_only) matches Err(e) && e.kind
                == ErrorKind::InvalidParams && e.message == "'name' requires 'type'"@,
        },
{
    lemma_records_slash();
    if let GodaddyCall::ListDns(a) = call {
        if let Some(t) = a.rtype {
            assert("/v1/domains/"@ + a.domain@ + "/records"@ + "/"@ + t@ =~= "/v1/domains/"@
                + a.domain@ + "/records/"@ + t@);
            if let Some(n) = a.name {
                assert("/v1/domains/"@ + a.domain@ + "/records"@ + "/"@ + t@ + "/"@ + n@
                    =~= "/v1/domains/"@ + a.domain@ + "/records/"@ + t@ + "/"@ + n@);
            }
        }
    }
}

/// A listing of domains asks for just what the call gives: each of the filter,
/// the limit in decimal and the marker under its own name, once, where it is
/// given, and for nothing else.
pub proof fn law_listing_asks_for_what_is_given(
    call: GodaddyCall,
    a: ListDomainsArgs,
    read_only: bool,
    key: Seq<char>,
    value: Seq<char>,
)
    requires
        call == GodaddyCall::ListDomains(a),
    ensures
        planned(call, read_only) matches Ok(q) && {
            &&& q.query.len() == one_if(a.statuses) + one_if(a.limit) + one_if(a.marker)
            &&& q.query.contains((key, value)) <==> {
                ||| key == "statuses"@ && text_view(a.statuses) == Some(value)
                ||| key == "limit"@ && a.limit is Some && value == decimal(a.limit->0 as nat)
                ||| key == "marker"@ && text_view(a.marker) == Some(value)
            }
        },
{
    let q0 = Seq::<(Seq<char>, Seq<char>)>::empty();
    let limit = match a.limit {
        Some(n) => Some(decimal(n as nat)),
        None => None,
    };
    let q1 = and_pair(q0, "statuses"@, text_view(a.statuses));
    let q2 = and_pair(q1, "limit"@, limit);
    let q3 = and_pair(q2, "marker"@, text_view(a.marker));
    lemma_pair_is_kept(q0, "statuses"@, text_view(a.statuses), (key, value));
    lemma_pair_is_kept(q1, "limit"@, limit, (key, value));
    lemma_pair_is_kept(q2, "marker"@, text_view(a.marker), (key, value));
    assert(domain_query(a) == q3);
}

proof fn lemma_pair_is_kept(
    pairs: Seq<(Seq<char>, Seq<char>)>,
    key: Seq<char>,
    value: Option<Seq<char>>,
    pair: (Seq<char>, Seq<char>),
)
    ensures
        and_pair(pairs, key, value).contains(pair) <==> pairs.contains(pair) || (pair.0 == key
            && value == Some(pair.1)),
{
    if let Some(v) = value {
        let more = pairs.push((key, v));
        if pairs.contains(pair) {
            let i = choose|i: int| 0 <= i < pairs.len() && pairs[i] == pair;
            assert(more[i] == pair);
        }
        if pair == (key, v) {
            assert(more[pairs.len() as int] == pair);
        }
        if more.contains(pair) {
            let i = choose|i: int| 0 <= i < more.len() && more[i] == pair;
            if i < pairs.len() {
                assert(pairs[i] == pair);
            }
        }
    }
}

/// A raw call goes out as it is given: its method, its path, its body, and each
/// query parameter in its place, a text as it stands and anything else as JSON.
pub proof fn law_raw_call_goes_out_as_given(call: GodaddyCall)
    ensures
        call matches GodaddyCall::RawApi(a) ==> {
            &&& planned(call, false) matches Ok(q)
            &&& q.method == a.method@
            &&& q.path == a.path@
            &&& q.body is Some <==> a.body is Some
            &&& a.body is Some ==> q.body->0 == a.body->0@
            &&& q.query.len() == a.query@.len()
            &&& forall|i: int|
                0 <= i < q.query.len() ==> (#[trigger] q.query[i]).0 == a.query@[i].0@
                    && q.query[i].1 == (match a.query@[i].1@ {
                    JsonView::Str(t) => t,
                    other => json_compact(other),
                })
        },
{
}

/// Each tool goes by its own name, and a name that is none of these is no
/// tool's.
pub proof fn law_tools_go_by_these_names(name: Seq<char>, t: GodaddyTool)
    ensures
        tool_named(name) == Some(t) <==> name == (match t {
            GodaddyTool::ListDomains => "list_domains"@,
            GodaddyTool::GetDomain => "get_domain"@,
            GodaddyTool::CheckAvailability => "check_availability"@,
            GodaddyTool::ListTlds => "list_tlds"@,
            GodaddyTool::ListDns => "list_dns_records"@,
            GodaddyTool::AddDns => "add_dns_records"@,
            GodaddyTool::SetDns => "set_dns_records"@,
            GodaddyTool::DeleteDns => "delete_dns_record"@,
            GodaddyTool::ReplaceAllDns => "replace_all_dns_records"@,
            GodaddyTool::SetNameservers => "set_nameservers"@,
            GodaddyTool::ListSubscriptions => "list_subscriptions"@,
            GodaddyTool::RawApi => "raw_api"@,
        }),
{
    law_names_are_distinct(t);
    if let Some(u) = tool_named(name) {
        law_names_are_distinct(u);
    }
}

/// In read-only mode every call that changes the account is refused, by its
/// tool's name, as the caller's fault: the five tools that write, and a raw
/// call whose method is not GET in whatever case. Every other call makes the
/// same request in either mode.
pub proof fn law_read_only_refuses_just_the_writes(call: GodaddyCall)
    ensures
        (call is AddDns || call is SetDns || call is DeleteDns || call is ReplaceAllDns
            || call is SetNameservers || (call matches GodaddyCall::RawApi(a) && !same_but_case(
            a.method@,
            "get"@,
        ))) ==> (planned(call, true) matches Err(e) && e.kind == ErrorKind::InvalidParams
            && e.message == "'"@ + (match call {
            GodaddyCall::AddDns(_) => "add_dns_records"@,
            GodaddyCall::SetDns(_) => "set_dns_records"@,
            GodaddyCall::DeleteDns(_) => "delete_dns_record"@,
            GodaddyCall::ReplaceAllDns(_) => "replace_all_dns_records"@,
            GodaddyCall::SetNameservers(_) => "set_nameservers"@,
            _ => "raw_api"@,
        }) + "' is a write operation and GODADDY_READ_ONLY is set"@),
        (call is ListDomains || call is GetDomain || call is CheckAvailability || call is ListTlds
            || call is ListDns || call is ListSubscriptions || (call matches GodaddyCall::RawApi(a)
            && same_but_case(a.method@, "get"@))) ==> planned(call, true) == planned(call, false),
{
}

/// A tool is refused by its name alone, before its arguments are looked at,
/// exactly where every call of it would be.
pub proof fn law_writing_tools_are_these(t: GodaddyTool)
    ensures
        mutates(t) <==> (t is AddDns || t is SetDns || t is DeleteDns || t is ReplaceAllDns
            || t is SetNameservers),
        write_refused(name_of(t)).kind == ErrorKind::InvalidParams,
        write_refused(name_of(t)).message == "'"@ + name_of(t)
            + "' is a write operation and GODADDY_READ_ONLY is set"@,
{
}

} // verus!
