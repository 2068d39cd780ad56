//! What holds of documents, and of the schemas and errors that are made of
//! them.

use crate::json::{member_of, texts_view, JsonView};
use crate::mcp::{
    array_of_view, described_view, ill_formed, internal, invalid, shape_view, strict_shape_view,
    typed_view, unknown, ErrorKind,
};
use vstd::prelude::*;
use vstd::string::*;

verus! {

/// A number that is set, as a member.
pub open spec fn number_member(n: Option<u32>) -> Option<JsonView> {
    match n {
        Some(v) => Some(JsonView::UInt(v as u64)),
        None => None,
    }
}

/// A text that is set, as a member.
pub open spec fn text_member(t: Option<String>) -> Option<JsonView> {
    match t {
        Some(v) => Some(JsonView::Str(v@)),
        None => None,
    }
}

/// One where the value is set.
pub open spec fn one_if<T>(t: Option<T>) -> int {
    if t is Some {
        1
    } else {
        0
    }
}

/// A member is looked up by its name: what is found stands under that name,
/// before every other member of that name, and nothing is found where no
/// member has it.
pub proof fn law_member_is_the_first_of_its_name(
    members: Seq<(Seq<char>, JsonView)>,
    key: Seq<char>,
    i: int,
)
    requires
        0 <= i < members.len(),
        members[i].0 == key,
        forall|k: int| 0 <= k < i ==> (#[trigger] members[k]).0 != key,
    ensures
        JsonView::Object(members).member(key) == Some(members[i].1),
    decreases i,
{
    if i > 0 {
        let rest = members.drop_first();
        assert(members[0].0 != key);
        assert(rest[i - 1] == members[i]);
        assert forall|k: int| 0 <= k < i - 1 implies (#[trigger] rest[k]).0 != key by {
            assert(rest[k] == members[k + 1]);
        }
        law_member_is_the_first_of_its_name(rest, key, i - 1);
    }
}

/// Where no member has the name, and where a document is no object, there is
/// no such member.
pub proof fn law_no_member_is_made_up(j: JsonView, key: Seq<char>)
    requires
        j matches JsonView::Object(members) ==> forall|k: int|
            0 <= k < members.len() ==> (#[trigger] members[k]).0 != key,
    ensures
        j.member(key) is None,
    decreases (match j {
        JsonView::Object(members) => members.len(),
        _ => 0,
    }),
{
    if let JsonView::Object(members) = j {
        if members.len() > 0 {
            let rest = members.drop_first();
            assert(members[0].0 != key);
            assert forall|k: int| 0 <= k < rest.len() implies (#[trigger] rest[k]).0 != key by {
                assert(rest[k] == members[k + 1]);
            }
            law_no_member_is_made_up(JsonView::Object(rest), key);
        }
    }
}

/// One more member changes no other, and is found where its name is new.
pub proof fn law_with_adds_one_member(j: JsonView, name: Seq<char>, value: JsonView)
    requires
        j is Object,
    ensures
        j.with(name, value) is Object,
        j.with(name, value)->Object_0.len() == j->Object_0.len() + 1,
        forall|key: Seq<char>| #[trigger]
            j.with(name, value).member(key) == (match j.member(key) {
                Some(held) => Some(held),
                None => if key == name {
                    Some(value)
                } else {
                    None
                },
            }),
{
    assert forall|key: Seq<char>| #[trigger]
        j.with(name, value).member(key) == (match j.member(key) {
            Some(held) => Some(held),
            None => if key == name {
                Some(value)
            } else {
                None
            },
        }) by {
        lemma_member_of_more(j->Object_0, name, value, key);
    }
}

proof fn lemma_member_of_more(
    members: Seq<(Seq<char>, JsonView)>,
    name: Seq<char>,
    value: JsonView,
    key: Seq<char>,
)
    ensures
        member_of(members.push((name, value)), key) == (match member_of(members, key) {
            Some(held) => Some(held),
            None => if key == name {
                Some(value)
            } else {
                None
            },
        }),
    decreases members.len(),
{
    let more = members.push((name, value));
    if members.len() > 0 {
        assert(more[0] == members[0]);
        assert(more.drop_first() =~= members.drop_first().push((name, value)));
        lemma_member_of_more(members.drop_first(), name, value, key);
    } else {
        assert(more[0] == (name, value));
        assert(more.drop_first() =~= members);
    }
}

/// A text that is set is one more member, and one that is not is none.
pub proof fn law_with_text_adds_what_is_set(j: JsonView, name: Seq<char>, value: Option<Seq<char>>)
    requires
        j is Object,
    ensures
        j.with_text(name, value) is Object,
        j.with_text(name, value)->Object_0.len() == j->Object_0.len() + (if value is Some {
            1int
        } else {
            0
        }),
        forall|key: Seq<char>| #[trigger]
            j.with_text(name, value).member(key) == (match (j.member(key), value) {
                (Some(held), _) => Some(held),
                (None, Some(t)) => if key == name {
                    Some(JsonView::Str(t))
                } else {
                    None
                },
                (None, None) => None,
            }),
{
    if let Some(t) = value {
        law_with_adds_one_member(j, name, JsonView::Str(t));
        assert forall|key: Seq<char>| #[trigger]
            j.with_text(name, value).member(key) == (match (j.member(key), value) {
                (Some(held), _) => Some(held),
                (None, Some(t)) => if key == name {
                    Some(JsonView::Str(t))
                } else {
                    None
                },
                (None, None) => None,
            }) by {
            assert(j.with_text(name, value).member(key) == j.with(name, JsonView::Str(t)).member(
                key,
            ));
        }
    }
}

/// A number that is set is one more member, and one that is not is none.
pub proof fn law_with_number_adds_what_is_set(j: JsonView, name: Seq<char>, value: Option<u32>)
    requires
        j is Object,
    ensures
        j.with_number(name, value) is Object,
        j.with_number(name, value)->Object_0.len() == j->Object_0.len() + (if value is Some {
            1int
        } else {
            0
        }),
        forall|key: Seq<char>| #[trigger]
            j.with_number(name, value).member(key) == (match (j.member(key), value) {
                (Some(held), _) => Some(held),
                (None, Some(n)) => if key == name {
                    Some(JsonView::UInt(n as u64))
                } else {
                    None
                },
                (None, None) => None,
            }),
{
    if let Some(n) = value {
        law_with_adds_one_member(j, name, JsonView::UInt(n as u64));
        assert forall|key: Seq<char>| #[trigger]
            j.with_number(name, value).member(key) == (match (j.member(key), value) {
                (Some(held), _) => Some(held),
                (None, Some(n)) => if key == name {
                    Some(JsonView::UInt(n as u64))
                } else {
                    None
                },
                (None, None) => None,
            }) by {
            assert(j.with_number(name, value).member(key) == j.with(
                name,
                JsonView::UInt(n as u64),
            ).member(key));
        }
    }
}

/// The empty object has no member.
pub proof fn law_empty_object_has_no_member()
    ensures
        JsonView::object() is Object,
        JsonView::object()->Object_0.len() == 0,
        forall|key: Seq<char>| (#[trigger] JsonView::object().member(key)) is None,
{
}

/// An array of texts holds each text in its place, and nothing else.
pub proof fn law_texts_stand_in_their_places(items: Seq<Seq<char>>)
    ensures
        texts_view(items) matches JsonView::Array(held) && held.len() == items.len() && forall|
            i: int,
        |
            0 <= i < items.len() ==> (#[trigger] held[i]) == JsonView::Str(items[i]),
{
}

/// The names that stand in schemas differ.
proof fn lemma_schema_words_differ()
    ensures
        "type"@ != "description"@,
        "type"@ != "items"@,
        "type"@ != "properties"@,
        "type"@ != "required"@,
        "properties"@ != "required"@,
{
    reveal_strlit("type");
    reveal_strlit("description");
    reveal_strlit("items");
    reveal_strlit("properties");
    reveal_strlit("required");
    assert("type"@.len() == 4);
    assert("description"@.len() == 11);
    assert("items"@.len() == 5);
    assert("properties"@.len() == 10);
    assert("required"@.len() == 8);
}

/// A schema says under `type` what kind of value it is for, and under the
/// other names of JSON Schema what it is given for them.
pub proof fn law_schemas_say_what_they_are_given(
    kind: Seq<char>,
    about: Seq<char>,
    inner: JsonView,
    required: JsonView,
)
    ensures
        typed_view(kind).member("type"@) == Some(JsonView::Str(kind)),
        typed_view(kind)->Object_0.len() == 1,
        described_view(kind, about).member("type"@) == Some(JsonView::Str(kind)),
        described_view(kind, about).member("description"@) == Some(JsonView::Str(about)),
        described_view(kind, about)->Object_0.len() == 2,
        array_of_view(inner).member("type"@) == Some(JsonView::Str("array"@)),
        array_of_view(inner).member("items"@) == Some(inner),
        array_of_view(inner)->Object_0.len() == 2,
        shape_view(inner).member("type"@) == Some(JsonView::Str("object"@)),
        shape_view(inner).member("properties"@) == Some(inner),
        shape_view(inner)->Object_0.len() == 2,
        strict_shape_view(inner, required).member("type"@) == Some(JsonView::Str("object"@)),
        strict_shape_view(inner, required).member("properties"@) == Some(inner),
        strict_shape_view(inner, required).member("required"@) == Some(required),
        strict_shape_view(inner, required)->Object_0.len() == 3,
{
    lemma_schema_words_differ();
    law_empty_object_has_no_member();
    law_with_adds_one_member(JsonView::object(), "type"@, JsonView::Str(kind));
    law_with_adds_one_member(JsonView::object(), "type"@, JsonView::Str("array"@));
    law_with_adds_one_member(JsonView::object(), "type"@, JsonView::Str("object"@));
    law_with_adds_one_member(typed_view(kind), "description"@, JsonView::Str(about));
    law_with_adds_one_member(typed_view("array"@), "items"@, inner);
    law_with_adds_one_member(typed_view("object"@), "properties"@, inner);
    law_with_adds_one_member(shape_view(inner), "required"@, required);
}

/// An error carries its message, whole, and says whose fault it is: the
/// request's where a tool or its arguments are not known, and else the
/// server's.
pub proof fn law_errors_carry_their_message(m: Seq<char>)
    ensures
        invalid(m).message == m && invalid(m).kind == ErrorKind::InvalidParams,
        internal(m).message == m && internal(m).kind == ErrorKind::Internal,
        unknown(m).message == "unknown tool '"@ + m + "'"@,
        unknown(m).kind == ErrorKind::InvalidParams,
        ill_formed(m).message == "bad arguments: "@ + m,
        ill_formed(m).kind == ErrorKind::InvalidParams,
{
}

} // verus!
