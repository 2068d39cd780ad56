//! What the views show: every field as it is, and nothing else.

use crate::fleet::{load_view, ToolHit};
use crate::godaddy::api::{auth_view, ApiRequest, Auth, AuthView, HttpRequest};
use crate::json::{items_view, members_view, outcome, Json, JsonView};
use crate::mcp::{defs_view, ToolDef, ToolError};
use crate::table::{lemma_keyed_once, Table};
use crate::text::{lemma_order_is_total, precedes, str_view, text_view, views};
use crate::tool::{catalogue_view, tools_view, ToolSchema};
use crate::ytdl::listing::{files_view, FoundFile};
use crate::ytdl::server::ToolkitCommand;
use crate::ytdl::toolkit::text_outcome;
use vstd::prelude::*;

verus! {

/// Texts are shown as they are, each in its place.
pub proof fn law_texts_are_shown(v: Seq<String>, t: Option<String>, s: Option<&str>, i: int)
    requires
        0 <= i < v.len(),
    ensures
        views(v).len() == v.len(),
        views(v)[i] == v[i]@,
        t is Some <==> text_view(t) is Some,
        t is Some ==> text_view(t)->0 == t->0@,
        s is Some <==> str_view(s) is Some,
        s is Some ==> str_view(s)->0 == s->0@,
{
}

/// A table shows its entries in the order of their keys, each key once.
pub proof fn law_tables_are_in_order<V>(t: &Table<V>, n: usize, i: int, j: int)
    requires
        call_ensures(Table::<V>::len, (t,), n),
        0 <= i < j < t.rows().len(),
    ensures
        n == t.rows().len(),
        precedes(t.rows()[i].0, t.rows()[j].0),
        t.rows()[i].0 != t.rows()[j].0,
        t@.contains_key(t.rows()[i].0),
        t@[t.rows()[i].0] == t.rows()[i].1,
{
    lemma_keyed_once(t.rows(), i);
    lemma_order_is_total(t.rows()[i].0, t.rows()[j].0);
}

/// A document is shown as it is: each plain value, each item of an array in its
/// place, and each member of an object in its place under its name.
pub proof fn law_documents_are_shown(j: Json)
    ensures
        j is Null ==> j@ is Null,
        j matches Json::Bool(b) ==> j@ == JsonView::Bool(b),
        j matches Json::UInt(n) ==> j@ == JsonView::UInt(n),
        j matches Json::Int(n) ==> j@ == JsonView::Int(n),
        j matches Json::Float(t) ==> j@ == JsonView::Float(t@),
        j matches Json::Str(t) ==> j@ == JsonView::Str(t@),
        j matches Json::Array(v) ==> {
            &&& j@ matches JsonView::Array(held)
            &&& held.len() == v@.len()
            &&& forall|i: int| 0 <= i < held.len() ==> (#[trigger] held[i]) == v@[i]@
        },
        j matches Json::Object(v) ==> {
            &&& j@ matches JsonView::Object(held)
            &&& held.len() == v@.len()
            &&& forall|i: int|
                0 <= i < held.len() ==> (#[trigger] held[i]).0 == v@[i].0@ && held[i].1
                    == v@[i].1@
        },
{
}

/// Lists of documents and of members are shown as they are.
pub proof fn law_lists_of_documents_are_shown(items: Seq<Json>, members: Seq<(String, Json)>, i: int)
    ensures
        items_view(items).len() == items.len(),
        0 <= i < items.len() ==> items_view(items)[i] == items[i]@,
        members_view(members).len() == members.len(),
        0 <= i < members.len() ==> members_view(members)[i] == (members[i].0@, members[i].1@),
{
}

/// What came of something is shown as it is, the result or the error.
pub proof fn law_outcomes_are_shown(
    r: Result<Json, String>,
    t: Result<String, String>,
    n: Result<usize, String>,
)
    ensures
        r matches Ok(j) ==> outcome(r) == Ok::<JsonView, Seq<char>>(j@),
        r matches Err(e) ==> outcome(r) == Err::<JsonView, Seq<char>>(e@),
        t matches Ok(x) ==> text_outcome(t) == Ok::<Seq<char>, Seq<char>>(x@),
        t matches Err(e) ==> text_outcome(t) == Err::<Seq<char>, Seq<char>>(e@),
        n matches Ok(x) ==> load_view(n) == Ok::<usize, Seq<char>>(x),
        n matches Err(e) ==> load_view(n) == Err::<usize, Seq<char>>(e@),
{
}

/// A request for the API is shown field by field.
pub proof fn law_requests_are_shown(q: ApiRequest, i: int)
    ensures
        q@.method == q.method@,
        q@.path == q.path@,
        q@.query.len() == q.query@.len(),
        0 <= i < q.query@.len() ==> q@.query[i].0 == q.query@[i].0@ && q@.query[i].1
            == q.query@[i].1@,
        q@.body is Some <==> q.body is Some,
        q.body is Some ==> q@.body->0 == q.body->0@,
{
}

/// A request on the wire is shown field by field.
pub proof fn law_wire_is_shown(h: HttpRequest, i: int)
    ensures
        h@.method == h.method@,
        h@.url == h.url@,
        h@.headers.len() == h.headers@.len(),
        0 <= i < h.headers@.len() ==> h@.headers[i].0 == h.headers@[i].0@ && h@.headers[i].1
            == h.headers@[i].1@,
        h@.query.len() == h.query@.len(),
        0 <= i < h.query@.len() ==> h@.query[i].0 == h.query@[i].0@ && h@.query[i].1
            == h.query@[i].1@,
        h@.body is Some <==> h.body is Some,
        h.body is Some ==> h@.body->0 == h.body->0@,
{
}

/// Credentials are shown as they are.
pub proof fn law_credentials_are_shown(a: Auth)
    ensures
        a matches Auth::Pat(p) ==> a@ == AuthView::Pat(p@),
        a matches Auth::SsoKey { key, secret } ==> a@ == (AuthView::SsoKey {
            key: key@,
            secret: secret@,
        }),
        auth_view(Some(a)) == Some(a@),
        auth_view(None) is None,
{
}

/// Tools on offer and errors are shown field by field.
pub proof fn law_offers_and_errors_are_shown(d: Seq<ToolDef>, e: ToolError, i: int)
    ensures
        defs_view(d).len() == d.len(),
        0 <= i < d.len() ==> defs_view(d)[i].name == d[i].name@ && defs_view(d)[i].description
            == d[i].description@ && defs_view(d)[i].input_schema == d[i].input_schema@,
        e@.kind == e.kind,
        e@.message == e.message@,
{
}

/// A hit is shown field by field.
pub proof fn law_hits_are_shown(h: ToolHit)
    ensures
        h@.server == h.server@,
        h@.tool == h.tool@,
        h@.description == h.description@,
        h@.identity is Some <==> h.identity is Some,
        h.identity is Some ==> h@.identity->0 == h.identity->0@,
{
}

/// The tools of servers are shown as they are, each under its server.
pub proof fn law_catalogues_are_shown(
    tools: Seq<ToolSchema>,
    rows: Seq<(String, Vec<ToolSchema>)>,
    i: int,
)
    ensures
        tools_view(tools).len() == tools.len(),
        0 <= i < tools.len() ==> tools_view(tools)[i] == tools[i]@,
        catalogue_view(rows).len() == rows.len(),
        0 <= i < rows.len() ==> catalogue_view(rows)[i].0 == rows[i].0@ && catalogue_view(
            rows,
        )[i].1.len() == rows[i].1@.len(),
{
}

/// A command and a file are shown field by field.
pub proof fn law_commands_and_files_are_shown(c: ToolkitCommand, f: Seq<FoundFile>, i: int)
    ensures
        c@.program == c.program@,
        c@.cwd == c.cwd@,
        c@.args.len() == c.args@.len(),
        0 <= i < c.args@.len() ==> c@.args[i] == c.args@[i]@,
        files_view(f).len() == f.len(),
        0 <= i < f.len() ==> files_view(f)[i].name == f[i].name@ && files_view(f)[i].bytes
            == f[i].bytes && files_view(f)[i].modified == f[i].modified,
{
}

} // verus!
