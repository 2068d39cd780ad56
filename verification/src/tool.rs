//! Downstream tools, as `rmcp` reads them, and the file that keeps them.

use crate::json::{
    items_view, json_of, lemma_items, lemma_members, members_view, value_of, Json, JsonView,
};
use crate::table::ascending;
use crate::text::{copy_text, text_view};
use vstd::prelude::*;

verus! {

/// A downstream tool: its name and description, and everything that its
/// server says of it as a JSON document.
#[derive(Debug)]
pub struct ToolSchema {
    name: String,
    description: Option<String>,
    json: Json,
}

/// What a [`ToolSchema`] holds.
pub struct ToolView {
    pub name: Seq<char>,
    pub description: Option<Seq<char>>,
    pub json: JsonView,
}

impl View for ToolSchema {
    type V = ToolView;

    closed spec fn view(&self) -> ToolView {
        ToolView { name: self.name@, description: text_view(self.description), json: self.json@ }
    }
}

impl ToolView {
    /// `rmcp` reads this tool in this tool's own document.
    pub open spec fn genuine(self) -> bool {
        tool_read(self.json) == Some(self)
    }
}

/// What a list of tools holds.
pub open spec fn tools_view(tools: Seq<ToolSchema>) -> Seq<ToolView> {
    Seq::new(tools.len(), |i: int| tools[i]@)
}

/// What the tools of several servers hold.
pub open spec fn catalogue_view(rows: Seq<(String, Vec<ToolSchema>)>) -> Seq<
    (Seq<char>, Seq<ToolView>),
> {
    Seq::new(rows.len(), |i: int| (rows[i].0@, tools_view(rows[i].1@)))
}

/// Every tool of `rows` is genuine.
pub open spec fn all_genuine(rows: Seq<(Seq<char>, Seq<ToolView>)>) -> bool {
    forall|i: int, k: int|
        0 <= i < rows.len() && 0 <= k < rows[i].1.len() ==> (#[trigger] rows[i].1[k]).genuine()
}

/// Objects and arrays stand in `j` within one another at most `depth` deep.
pub open spec fn fits(j: JsonView, depth: nat) -> bool
    decreases j,
{
    match j {
        JsonView::Array(items) => depth > 0 && forall|i: int|
            0 <= i < items.len() ==> fits(#[trigger] items[i], (depth - 1) as nat),
        JsonView::Object(members) => depth > 0 && forall|i: int|
            0 <= i < members.len() ==> fits((#[trigger] members[i]).1, (depth - 1) as nat),
        _ => true,
    }
}

/// An array is too deep where one of its items is.
proof fn lemma_item_too_deep(items: Seq<JsonView>, i: int, depth: nat)
    requires
        0 <= i < items.len(),
        depth > 0,
        !fits(items[i], (depth - 1) as nat),
    ensures
        !fits(JsonView::Array(items), depth),
{
    let j = JsonView::Array(items);
    assert(j->Array_0 == items);
    assert(fits(j, depth) == (forall|k: int|
        0 <= k < items.len() ==> fits(#[trigger] items[k], (depth - 1) as nat)));
}

/// An object is too deep where one of its members is.
proof fn lemma_member_too_deep(members: Seq<(Seq<char>, JsonView)>, i: int, depth: nat)
    requires
        0 <= i < members.len(),
        depth > 0,
        !fits(members[i].1, (depth - 1) as nat),
    ensures
        !fits(JsonView::Object(members), depth),
{
    let j = JsonView::Object(members);
    assert(j->Object_0 == members);
    assert(fits(j, depth) == (forall|k: int|
        0 <= k < members.len() ==> fits((#[trigger] members[k]).1, (depth - 1) as nat)));
}

impl Json {
    /// Whether objects and arrays stand within one another at most `depth`
    /// deep.
    pub fn fits(&self, depth: u64) -> (r: bool)
        ensures
            r == fits(self@, depth as nat),
        decreases self,
    {
        match self {
            Json::Array(items) => {
                proof {
                    lemma_items(*self);
                }
                if depth == 0 {
                    return false;
                }
                let mut i: usize = 0;
                while i < items.len()
                    invariant
                        i <= items@.len(),
                        depth > 0,
                        self matches Json::Array(v) && v == items,
                        self@ == JsonView::Array(items_view(items@)),
                        forall|k: int|
                            0 <= k < i ==> fits(
                                #[trigger] items_view(items@)[k],
                                (depth - 1) as nat,
                            ),
                    decreases items.len() - i,
                {
                    assert(decreases_to!(*self => items@[i as int]));
                    if !items[i].fits(depth - 1) {
                        proof {
                            let held = items_view(items@);
                            assert(held[i as int] == items@[i as int]@);
                            lemma_item_too_deep(held, i as int, depth as nat);
                        }
                        return false;
                    }
                    i = i + 1;
                }
                true
            },
            Json::Object(members) => {
                proof {
                    lemma_members(*self);
                }
                if depth == 0 {
                    return false;
                }
                let mut i: usize = 0;
                while i < members.len()
                    invariant
                        i <= members@.len(),
                        depth > 0,
                        self matches Json::Object(v) && v == members,
                        self@ == JsonView::Object(members_view(members@)),
                        forall|k: int|
                            0 <= k < i ==> fits(
                                (#[trigger] members_view(members@)[k]).1,
                                (depth - 1) as nat,
                            ),
                    decreases members.len() - i,
                {
                    assert(decreases_to!(*self => members@[i as int].1));
                    if !members[i].1.fits(depth - 1) {
                        proof {
                            let held = members_view(members@);
                            assert(held[i as int].1 == members@[i as int].1@);
                            lemma_member_too_deep(held, i as int, depth as nat);
                        }
                        return false;
                    }
                    i = i + 1;
                }
                true
            },
            _ => true,
        }
    }
}

/// The documents of `rows` are no deeper than what `serde_json` reads back
/// out of a file that lists them by server: 127 levels, two of which are the
/// list and the table of lists.
pub open spec fn all_shallow(rows: Seq<(Seq<char>, Seq<ToolView>)>) -> bool {
    forall|i: int, k: int|
        0 <= i < rows.len() && 0 <= k < rows[i].1.len() ==> fits(
            (#[trigger] rows[i].1[k]).json,
            125,
        )
}

/// The tool that `rmcp::model::Tool` is read as from a document.
pub uninterp spec fn tool_read(json: JsonView) -> Option<ToolView>;

/// The tools by server that a file's text is read as, in the order of the
/// servers' names.
pub uninterp spec fn cache_read(text: Seq<char>) -> Option<Seq<(Seq<char>, Seq<ToolView>)>>;

/// The text that is written for tools by server.
pub uninterp spec fn cache_text(rows: Seq<(Seq<char>, Seq<ToolView>)>) -> Seq<char>;

/// What a reading of a tool came to.
pub open spec fn tool_outcome(r: Option<ToolSchema>) -> Option<ToolView> {
    match r {
        Some(t) => Some(t@),
        None => None,
    }
}

/// What a reading of a file came to.
pub open spec fn cache_outcome(r: Option<Vec<(String, Vec<ToolSchema>)>>) -> Option<
    Seq<(Seq<char>, Seq<ToolView>)>,
> {
    match r {
        Some(rows) => Some(catalogue_view(rows@)),
        None => None,
    }
}

#[verifier::external_type_specification]
#[verifier::external_body]
pub struct ExTool(rmcp::model::Tool);

/// Takes over the name and the description of an `rmcp` tool, and with
/// `serde_json::to_value` its whole document.
#[verifier::external_body]
fn tool_of(t: rmcp::model::Tool) -> ToolSchema {
    let json = json_of(serde_json::to_value(&t).unwrap_or_default());
    ToolSchema { name: t.name.to_string(), description: t.description.map(|d| d.to_string()), json }
}

/// Calls `serde_json::from_value` for an `rmcp::model::Tool`. The contract
/// claims that the result depends on the document alone, and that the document
/// written for a tool that was read is read as that tool again.
#[verifier::external_body]
fn decode_tool(json: &Json) -> (r: Option<ToolSchema>)
    ensures
        tool_outcome(r) == tool_read(json@),
        r matches Some(t) ==> t@.genuine(),
{
    serde_json::from_value::<rmcp::model::Tool>(value_of(json)).ok().map(tool_of)
}

/// Calls `serde_json::from_str` for a map from texts to lists of
/// `rmcp::model::Tool`. The contract claims that the result depends on the
/// text alone, that the map hands out its keys in ascending order, and that the
/// document written for each tool is read as that tool again.
#[verifier::external_body]
pub(crate) fn decode_cache(text: &str) -> (r: Option<Vec<(String, Vec<ToolSchema>)>>)
    ensures
        cache_outcome(r) == cache_read(text@),
        r matches Some(rows) ==> ascending(catalogue_view(rows@)),
        r matches Some(rows) ==> all_genuine(catalogue_view(rows@)),
{
    serde_json::from_str::<std::collections::BTreeMap<String, Vec<rmcp::model::Tool>>>(text)
        .ok()
        .map(|m| m.into_iter().map(|e| (e.0, e.1.into_iter().map(tool_of).collect())).collect())
}

/// Calls `serde_json::to_string_pretty` on a map from texts to lists of
/// documents, which does not fail: the keys are texts. The contract claims
/// that the text depends on the rows alone, and that [`decode_cache`] reads
/// the rows back, where the keys ascend, the tools are genuine and no document
/// is deeper than what the reader takes.
#[verifier::external_body]
pub(crate) fn encode_cache(rows: &Vec<(&String, &Vec<ToolSchema>)>) -> (r: String)
    ensures
        r@ == cache_text(borrowed_view(rows@)),
        ascending(borrowed_view(rows@)) && all_genuine(borrowed_view(rows@)) && all_shallow(
            borrowed_view(rows@),
        ) ==> cache_read(r@) == Some(borrowed_view(rows@)),
{
    let map: std::collections::BTreeMap<&String, Vec<serde_json::Value>> = rows.iter().map(
        |e| (e.0, e.1.iter().map(|t| value_of(&t.json)).collect()),
    ).collect();
    serde_json::to_string_pretty(&map).unwrap_or_default()
}

/// What borrowed rows hold.
pub open spec fn borrowed_view(rows: Seq<(&String, &Vec<ToolSchema>)>) -> Seq<
    (Seq<char>, Seq<ToolView>),
> {
    Seq::new(rows.len(), |i: int| (rows[i].0@, tools_view(rows[i].1@)))
}

impl ToolSchema {
    /// `rmcp` reads this tool in this tool's own document.
    #[verifier::type_invariant]
    pub closed spec fn valid(self) -> bool {
        self@.genuine()
    }

    /// Reads a tool from its document.
    pub fn from_json(json: &Json) -> (r: Option<ToolSchema>)
        ensures
            tool_outcome(r) == tool_read(json@),
    {
        decode_tool(json)
    }

    /// The name of the tool.
    pub fn name(&self) -> (r: &String)
        ensures
            r@ == self@.name,
    {
        &self.name
    }

    /// What the tool does, in the words of its server.
    pub fn description(&self) -> (r: &Option<String>)
        ensures
            text_view(*r) == self@.description,
    {
        &self.description
    }

    /// Everything that the server says of the tool.
    pub fn json(&self) -> (r: &Json)
        ensures
            r@ == self@.json,
    {
        &self.json
    }

    /// The same tool once more.
    pub fn copy(&self) -> (r: ToolSchema)
        ensures
            r@ == self@,
    {
        proof {
            use_type_invariant(self);
        }
        ToolSchema {
            name: self.name.clone(),
            description: copy_text(&self.description),
            json: self.json.copy(),
        }
    }
}

/// A tool that exists is genuine.
pub(crate) fn check_genuine(tool: &ToolSchema)
    ensures
        tool@.genuine(),
{
    proof {
        use_type_invariant(tool);
    }
}

} // verus!
