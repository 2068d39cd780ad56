//! JSON documents as plain data, and their text as `serde_json` reads and
//! writes it.

use crate::text::{same, text_view, views};
use vstd::prelude::*;

verus! {

/// A JSON document.
///
/// An object holds its members in the order in which they are written. A
/// number is a non-negative integer, a negative one, or, where it is neither,
/// the text that `serde_json` prints for it.
#[derive(Debug)]
pub enum Json {
    Null,
    Bool(bool),
    UInt(u64),
    Int(i64),
    Float(String),
    Str(String),
    Array(Vec<Json>),
    Object(Vec<(String, Json)>),
}

/// What a [`Json`] holds.
#[verifier::ext_equal]
pub enum JsonView {
    Null,
    Bool(bool),
    UInt(u64),
    Int(i64),
    Float(Seq<char>),
    Str(Seq<char>),
    Array(Seq<JsonView>),
    Object(Seq<(Seq<char>, JsonView)>),
}

/// What `j` holds.
pub open spec fn json_view(j: Json) -> JsonView
    decreases j,
{
    match j {
        Json::Null => JsonView::Null,
        Json::Bool(b) => JsonView::Bool(b),
        Json::UInt(n) => JsonView::UInt(n),
        Json::Int(n) => JsonView::Int(n),
        Json::Float(t) => JsonView::Float(t@),
        Json::Str(s) => JsonView::Str(s@),
        Json::Array(items) => JsonView::Array(
            Seq::new(
                items@.len(),
                |i: int|
                    if 0 <= i < items@.len() {
                        json_view(items@[i])
                    } else {
                        JsonView::Null
                    },
            ),
        ),
        Json::Object(members) => JsonView::Object(
            Seq::new(
                members@.len(),
                |i: int|
                    if 0 <= i < members@.len() {
                        (members@[i].0@, json_view(members@[i].1))
                    } else {
                        (Seq::empty(), JsonView::Null)
                    },
            ),
        ),
    }
}

impl View for Json {
    type V = JsonView;

    open spec fn view(&self) -> JsonView {
        json_view(*self)
    }
}

/// What a list of documents holds.
pub open spec fn items_view(items: Seq<Json>) -> Seq<JsonView> {
    Seq::new(items.len(), |i: int| items[i]@)
}

/// What the members of an object hold.
pub open spec fn members_view(members: Seq<(String, Json)>) -> Seq<(Seq<char>, JsonView)> {
    Seq::new(members.len(), |i: int| (members[i].0@, members[i].1@))
}

impl JsonView {
    /// The object without members.
    pub open spec fn object() -> JsonView {
        JsonView::Object(Seq::empty())
    }

    /// This object with one more member at its end.
    pub open spec fn with(self, key: Seq<char>, value: JsonView) -> JsonView {
        JsonView::Object(self->Object_0.push((key, value)))
    }

    /// This object, and where `value` is set, `value` under `key`.
    pub open spec fn with_text(self, key: Seq<char>, value: Option<Seq<char>>) -> JsonView {
        match value {
            Some(t) => self.with(key, JsonView::Str(t)),
            None => self,
        }
    }

    /// This object, and where `value` is set, `value` under `key`.
    pub open spec fn with_number(self, key: Seq<char>, value: Option<u32>) -> JsonView {
        match value {
            Some(n) => self.with(key, JsonView::UInt(n as u64)),
            None => self,
        }
    }

    /// The array without items.
    pub open spec fn list() -> JsonView {
        JsonView::Array(Seq::empty())
    }

    /// This array with one more item at its end.
    pub open spec fn item(self, value: JsonView) -> JsonView {
        JsonView::Array(self->Array_0.push(value))
    }

    /// The value of the member `key`; none where this is no object or has no
    /// such member.
    pub open spec fn member(self, key: Seq<char>) -> Option<JsonView> {
        match self {
            JsonView::Object(members) => member_of(members, key),
            _ => None,
        }
    }
}

/// The value of the first member `key` of an object.
pub open spec fn member_of(members: Seq<(Seq<char>, JsonView)>, key: Seq<char>) -> Option<JsonView>
    decreases members.len(),
{
    if members.len() == 0 {
        None
    } else if members[0].0 == key {
        Some(members[0].1)
    } else {
        member_of(members.drop_first(), key)
    }
}

/// The view of an object is that of its members.
pub proof fn lemma_members(j: Json)
    ensures
        j matches Json::Object(members) ==> j@ == JsonView::Object(members_view(members@)),
{
    if let Json::Object(members) = j {
        assert(j@->Object_0 =~= members_view(members@));
    }
}

/// The view of an array is that of its items.
pub proof fn lemma_items(j: Json)
    ensures
        j matches Json::Array(items) ==> j@ == JsonView::Array(items_view(items@)),
{
    if let Json::Array(items) = j {
        assert(j@->Array_0 =~= items_view(items@));
    }
}

impl Json {
    /// The object without members.
    pub fn object() -> (r: Json)
        ensures
            r@ == JsonView::object(),
            r is Object,
    {
        let r = Json::Object(Vec::new());
        assert(r@->Object_0 =~= Seq::empty());
        r
    }

    /// This object with one more member at its end.
    pub fn with(self, key: &str, value: Json) -> (r: Json)
        requires
            self is Object,
        ensures
            r@ == self@.with(key@, value@),
            r is Object,
    {
        match self {
            Json::Object(mut members) => {
                let ghost before = members@;
                members.push((key.to_owned(), value));
                let ghost after = members@;
                let r = Json::Object(members);
                proof {
                    lemma_members(Json::Object(members));
                    lemma_members(self);
                    assert(after.len() == before.len() + 1);
                    assert(members_view(after) =~= members_view(before).push((key@, value@)));
                }
                r
            },
            other => other,
        }
    }

    /// This object, and where `value` is set, `value` under `key`.
    pub fn with_text(self, key: &str, value: &Option<String>) -> (r: Json)
        requires
            self is Object,
        ensures
            r@ == self@.with_text(key@, text_view(*value)),
            r is Object,
    {
        match value {
            Some(t) => self.with(key, Json::text(t.as_str())),
            None => self,
        }
    }

    /// This object, and where `value` is set, `value` under `key`.
    pub fn with_number(self, key: &str, value: Option<u32>) -> (r: Json)
        requires
            self is Object,
        ensures
            r@ == self@.with_number(key@, value),
            r is Object,
    {
        match value {
            Some(n) => self.with(key, Json::UInt(n as u64)),
            None => self,
        }
    }

    /// The array without items.
    pub fn list() -> (r: Json)
        ensures
            r@ == JsonView::list(),
            r is Array,
    {
        let r = Json::Array(Vec::new());
        assert(r@->Array_0 =~= Seq::empty());
        r
    }

    /// This array with one more item at its end.
    pub fn item(self, value: Json) -> (r: Json)
        requires
            self is Array,
        ensures
            r@ == self@.item(value@),
            r is Array,
    {
        match self {
            Json::Array(mut items) => {
                let ghost before = items@;
                items.push(value);
                let ghost after = items@;
                let r = Json::Array(items);
                proof {
                    lemma_items(Json::Array(items));
                    lemma_items(self);
                    assert(after.len() == before.len() + 1);
                    assert(items_view(after) =~= items_view(before).push(value@));
                }
                r
            },
            other => other,
        }
    }

    /// A text.
    pub fn text(s: &str) -> (r: Json)
        ensures
            r@ == JsonView::Str(s@),
    {
        Json::Str(s.to_owned())
    }

    /// An array.
    pub fn array(items: Vec<Json>) -> (r: Json)
        ensures
            r@ == JsonView::Array(items_view(items@)),
    {
        let r = Json::Array(items);
        proof {
            lemma_items(Json::Array(items));
        }
        r
    }

    /// An array of texts.
    pub fn texts(items: &Vec<String>) -> (r: Json)
        ensures
            r@ == texts_view(views(items@)),
    {
        let mut out: Vec<Json> = Vec::new();
        let mut i: usize = 0;
        while i < items.len()
            invariant
                i <= items@.len(),
                out@.len() == i,
                forall|k: int| 0 <= k < i ==> (#[trigger] out@[k])@ == JsonView::Str(items@[k]@),
            decreases items.len() - i,
        {
            out.push(Json::text(items[i].as_str()));
            i = i + 1;
        }
        assert(items_view(out@) =~= texts_view(views(items@))->Array_0);
        Json::array(out)
    }

    /// The value of the member `key`; none where this is no object or has no
    /// such member.
    pub fn get(&self, key: &str) -> (r: Option<&Json>)
        ensures
            r is Some <==> self@.member(key@) is Some,
            r matches Some(v) ==> self@.member(key@) == Some(v@),
    {
        match self {
            Json::Object(members) => {
                let mut i: usize = 0;
                let ghost all = members_view(members@);
                proof {
                    lemma_members(*self);
                    assert(all.skip(0) =~= all);
                }
                while i < members.len()
                    invariant
                        i <= members@.len(),
                        all == members_view(members@),
                        self@ == JsonView::Object(all),
                        member_of(all, key@) == member_of(all.skip(i as int), key@),
                    decreases members.len() - i,
                {
                    if same(members[i].0.as_str(), key) {
                        return Some(&members[i].1);
                    }
                    assert(all.skip(i as int).drop_first() =~= all.skip(i + 1));
                    i = i + 1;
                }
                None
            },
            _ => None,
        }
    }

    /// The same document once more.
    pub fn copy(&self) -> (r: Json)
        ensures
            r@ == self@,
        decreases self,
    {
        match self {
            Json::Null => Json::Null,
            Json::Bool(b) => Json::Bool(*b),
            Json::UInt(n) => Json::UInt(*n),
            Json::Int(n) => Json::Int(*n),
            Json::Float(t) => Json::Float(t.clone()),
            Json::Str(t) => Json::Str(t.clone()),
            Json::Array(items) => {
                let mut out: Vec<Json> = Vec::new();
                let mut i: usize = 0;
                while i < items.len()
                    invariant
                        i <= items@.len(),
                        out@.len() == i,
                        self matches Json::Array(v) && v == items,
                        forall|k: int| 0 <= k < i ==> (#[trigger] out@[k])@ == items@[k]@,
                    decreases items.len() - i,
                {
                    assert(decreases_to!(*self => items@[i as int]));
                    out.push(items[i].copy());
                    i = i + 1;
                }
                proof {
                    lemma_items(*self);
                    assert(items_view(out@) =~= items_view(items@));
                }
                Json::array(out)
            },
            Json::Object(members) => {
                let mut out: Vec<(String, Json)> = Vec::new();
                let mut i: usize = 0;
                while i < members.len()
                    invariant
                        i <= members@.len(),
                        out@.len() == i,
                        self matches Json::Object(v) && v == members,
                        forall|k: int|
                            0 <= k < i ==> (#[trigger] out@[k]).0@ == members@[k].0@ && out@[k].1@
                                == members@[k].1@,
                    decreases members.len() - i,
                {
                    assert(decreases_to!(*self => members@[i as int].1));
                    out.push((members[i].0.clone(), members[i].1.copy()));
                    i = i + 1;
                }
                let r = Json::Object(out);
                proof {
                    lemma_members(*self);
                    lemma_members(Json::Object(out));
                    assert(members_view(out@) =~= members_view(members@));
                }
                r
            },
        }
    }
}

/// An array of texts.
pub open spec fn texts_view(items: Seq<Seq<char>>) -> JsonView {
    JsonView::Array(Seq::new(items.len(), |i: int| JsonView::Str(items[i])))
}

#[verifier::external_type_specification]
#[verifier::external_body]
pub struct ExValue(serde_json::Value);

/// Rebuilds `j` as a `serde_json::Value`, variant by variant; a number that
/// is no integer is read back from its text by `serde_json::Number::from_f64`.
#[verifier::external_body]
pub(crate) fn value_of(j: &Json) -> serde_json::Value {
    match j {
        Json::Null => serde_json::Value::Null,
        Json::Bool(b) => serde_json::Value::Bool(*b),
        Json::UInt(n) => serde_json::Value::from(*n),
        Json::Int(n) => serde_json::Value::from(*n),
        Json::Float(t) => serde_json::Value::from(t.parse().ok().and_then(serde_json::Number::from_f64)),
        Json::Str(s) => serde_json::Value::String(s.clone()),
        Json::Array(items) => serde_json::Value::Array(items.iter().map(value_of).collect()),
        Json::Object(members) => serde_json::Value::Object(
            members.iter().map(|m| (m.0.clone(), value_of(&m.1))).collect(),
        ),
    }
}

/// Rebuilds a `serde_json::Value` as a [`Json`], variant by variant.
#[verifier::external_body]
pub(crate) fn json_of(v: serde_json::Value) -> Json {
    match v {
        serde_json::Value::Null => Json::Null,
        serde_json::Value::Bool(b) => Json::Bool(b),
        serde_json::Value::Number(n) => match (n.as_u64(), n.as_i64()) {
            (Some(u), _) => Json::UInt(u),
            (None, Some(i)) => Json::Int(i),
            (None, None) => Json::Float(n.to_string()),
        },
        serde_json::Value::String(s) => Json::Str(s),
        serde_json::Value::Array(items) => Json::Array(items.into_iter().map(json_of).collect()),
        serde_json::Value::Object(members) => Json::Object(
            members.into_iter().map(|m| (m.0, json_of(m.1))).collect(),
        ),
    }
}

/// What a reading came to: a document, or the text of an error.
pub open spec fn outcome(r: Result<Json, String>) -> Result<JsonView, Seq<char>> {
    match r {
        Ok(j) => Ok(j@),
        Err(e) => Err(e@),
    }
}

/// What `serde_json::from_str` reads in a text: a document, or the text of
/// its error.
pub uninterp spec fn json_read(text: Seq<char>) -> Result<JsonView, Seq<char>>;

/// What `serde_json::to_string_pretty` writes for a document.
pub uninterp spec fn json_pretty(j: JsonView) -> Seq<char>;

/// What `serde_json::Value::to_string` writes for a document.
pub uninterp spec fn json_compact(j: JsonView) -> Seq<char>;

/// Calls `serde_json::from_str`. The contract claims that what comes back, the
/// document or the displayed error, depends on the text alone.
#[verifier::external_body]
fn read_value(text: &str) -> (r: Result<Json, String>)
    ensures
        outcome(r) == json_read(text@),
{
    serde_json::from_str::<serde_json::Value>(text).map(json_of).map_err(|e| e.to_string())
}

/// Calls `serde_json::to_string_pretty`, which does not fail on a
/// `serde_json::Value`: its keys are texts. The contract claims that the text
/// depends on the document alone.
#[verifier::external_body]
fn write_pretty(j: &Json) -> (r: String)
    ensures
        r@ == json_pretty(j@),
{
    serde_json::to_string_pretty(&value_of(j)).unwrap_or_default()
}

/// Calls `serde_json::Value::to_string`. The contract claims that the text
/// depends on the document alone.
#[verifier::external_body]
fn write_compact(j: &Json) -> (r: String)
    ensures
        r@ == json_compact(j@),
{
    value_of(j).to_string()
}

impl Json {
    /// Reads a document from its text.
    pub fn parse(text: &str) -> (r: Result<Json, String>)
        ensures
            outcome(r) == json_read(text@),
    {
        read_value(text)
    }

    /// The document's text, indented.
    pub fn to_pretty(&self) -> (r: String)
        ensures
            r@ == json_pretty(self@),
    {
        write_pretty(self)
    }

    /// The document's text on one line.
    pub fn to_compact(&self) -> (r: String)
        ensures
            r@ == json_compact(self@),
    {
        write_compact(self)
    }
}

} // verus!
