//! What the servers ask of their callers: the arguments of each tool that is
//! on offer, their types, and which of them have to be given.

use crate::godaddy::server::{record_schema_view, tools_surface, value_schema_view};
use crate::json::{texts_view, JsonView};
use crate::json_laws::law_schemas_say_what_they_are_given;
use crate::mcp::{array_of_view, described_view, shape_view, strict_shape_view, typed_view, DefView};
use crate::server::meta_tools_view;
use crate::ytdl;
use vstd::prelude::*;
use vstd::string::*;

verus! {

/// The schema is of an object with just these properties, in this order, each
/// of its type, none standing for any; and just these of them are required.
pub open spec fn asks_for(
    schema: JsonView,
    properties: Seq<(Seq<char>, Option<Seq<char>>)>,
    required: Seq<Seq<char>>,
) -> bool {
    &&& schema.member("type"@) == Some(JsonView::Str("object"@))
    &&& schema.member("properties"@) matches Some(JsonView::Object(held))
    &&& held.len() == properties.len()
    &&& forall|i: int|
        0 <= i < held.len() ==> {
            &&& (#[trigger] held[i]).0 == properties[i].0
            &&& held[i].1.member("type"@) == (match properties[i].1 {
                Some(kind) => Some(JsonView::Str(kind)),
                None => None,
            })
        }
    &&& required.len() > 0 ==> schema.member("required"@) == Some(texts_view(required))
    &&& required.len() == 0 ==> schema.member("required"@) is None
}

/// The tool goes by this name and asks for these arguments.
pub open spec fn offers(
    def: DefView,
    name: Seq<char>,
    properties: Seq<(Seq<char>, Option<Seq<char>>)>,
    required: Seq<Seq<char>>,
) -> bool {
    def.name == name && asks_for(def.input_schema, properties, required)
}

/// Each kind of property says its type.
proof fn lemma_properties_say_their_type()
    ensures
        forall|k: Seq<char>| (#[trigger] typed_view(k)).member("type"@) == Some(JsonView::Str(k)),
        forall|k: Seq<char>, d: Seq<char>|
            (#[trigger] described_view(k, d)).member("type"@) == Some(JsonView::Str(k)),
        forall|items: JsonView|
            (#[trigger] array_of_view(items)).member("type"@) == Some(JsonView::Str("array"@)),
{
    assert forall|k: Seq<char>| (#[trigger] typed_view(k)).member("type"@) == Some(
        JsonView::Str(k),
    ) by {
        law_schemas_say_what_they_are_given(k, k, JsonView::Null, JsonView::Null);
    }
    assert forall|k: Seq<char>, d: Seq<char>|
        (#[trigger] described_view(k, d)).member("type"@) == Some(JsonView::Str(k)) by {
        law_schemas_say_what_they_are_given(k, d, JsonView::Null, JsonView::Null);
    }
    assert forall|items: JsonView|
        (#[trigger] array_of_view(items)).member("type"@) == Some(JsonView::Str("array"@)) by {
        law_schemas_say_what_they_are_given(Seq::empty(), Seq::empty(), items, JsonView::Null);
    }
}

/// What has no type says none.
proof fn lemma_untyped()
    ensures
        JsonView::object().with("description"@, JsonView::Str("JSON body for POST/PUT/PATCH"@)).member(
            "type"@,
        ) is None,
{
    reveal_strlit("type");
    reveal_strlit("description");
    assert("type"@.len() == 4);
    assert("description"@.len() == 11);
    crate::json_laws::law_empty_object_has_no_member();
    crate::json_laws::law_with_adds_one_member(
        JsonView::object(),
        "description"@,
        JsonView::Str("JSON body for POST/PUT/PATCH"@),
    );
}

/// A schema asks for the properties and the required names that it is made of.
proof fn lemma_strict(
    props: JsonView,
    req: JsonView,
    properties: Seq<(Seq<char>, Option<Seq<char>>)>,
    required: Seq<Seq<char>>,
)
    requires
        props is Object,
        props->Object_0.len() == properties.len(),
        forall|i: int|
            0 <= i < properties.len() ==> {
                &&& (#[trigger] props->Object_0[i]).0 == properties[i].0
                &&& props->Object_0[i].1.member("type"@) == (match properties[i].1 {
                    Some(kind) => Some(JsonView::Str(kind)),
                    None => None,
                })
            },
        req is Array,
        req->Array_0.len() == required.len(),
        required.len() > 0,
        forall|i: int|
            0 <= i < required.len() ==> (#[trigger] req->Array_0[i]) == JsonView::Str(required[i]),
    ensures
        asks_for(strict_shape_view(props, req), properties, required),
{
    law_schemas_say_what_they_are_given(Seq::empty(), Seq::empty(), props, req);
    assert(req->Array_0 =~= texts_view(required)->Array_0);
}

/// A schema of which nothing is required asks for the properties that it is
/// made of.
proof fn lemma_loose(props: JsonView, properties: Seq<(Seq<char>, Option<Seq<char>>)>)
    requires
        props is Object,
        props->Object_0.len() == properties.len(),
        forall|i: int|
            0 <= i < properties.len() ==> {
                &&& (#[trigger] props->Object_0[i]).0 == properties[i].0
                &&& props->Object_0[i].1.member("type"@) == (match properties[i].1 {
                    Some(kind) => Some(JsonView::Str(kind)),
                    None => None,
                })
            },
    ensures
        asks_for(shape_view(props), properties, Seq::empty()),
{
    law_schemas_say_what_they_are_given(Seq::empty(), Seq::empty(), props, JsonView::Null);
    reveal_strlit("type");
    reveal_strlit("properties");
    reveal_strlit("required");
    assert("type"@.len() == 4);
    assert("properties"@.len() == 10);
    assert("required"@.len() == 8);
    crate::json_laws::law_empty_object_has_no_member();
    crate::json_laws::law_with_adds_one_member(
        JsonView::object(),
        "type"@,
        JsonView::Str("object"@),
    );
    crate::json_laws::law_with_adds_one_member(typed_view("object"@), "properties"@, props);
}

/// A record is asked for with the fields that are sent of it, of which the type,
/// the name and the data have to be given; a record value with the same but for
/// the type and the name.
pub proof fn law_records_are_asked_for_field_by_field()
    ensures
        asks_for(
            record_schema_view(),
            seq![
                ("type"@, Some("string"@)),
                ("name"@, Some("string"@)),
                ("data"@, Some("string"@)),
                ("ttl"@, Some("integer"@)),
                ("priority"@, Some("integer"@)),
                ("weight"@, Some("integer"@)),
                ("port"@, Some("integer"@)),
                ("service"@, Some("string"@)),
                ("protocol"@, Some("string"@)),
            ],
            seq!["type"@, "name"@, "data"@],
        ),
        asks_for(
            value_schema_view(),
            seq![
                ("data"@, Some("string"@)),
                ("ttl"@, Some("integer"@)),
                ("priority"@, Some("integer"@)),
                ("weight"@, Some("integer"@)),
                ("port"@, Some("integer"@)),
                ("service"@, Some("string"@)),
                ("protocol"@, Some("string"@)),
            ],
            seq!["data"@],
        ),
{
    lemma_properties_say_their_type();
    let r = record_schema_view();
    law_schemas_say_what_they_are_given(
        Seq::empty(),
        Seq::empty(),
        r->Object_0[1].1,
        r->Object_0[2].1,
    );
    lemma_strict(
        r->Object_0[1].1,
        r->Object_0[2].1,
        seq![
            ("type"@, Some("string"@)),
            ("name"@, Some("string"@)),
            ("data"@, Some("string"@)),
            ("ttl"@, Some("integer"@)),
            ("priority"@, Some("integer"@)),
            ("weight"@, Some("integer"@)),
            ("port"@, Some("integer"@)),
            ("service"@, Some("string"@)),
            ("protocol"@, Some("string"@)),
        ],
        seq!["type"@, "name"@, "data"@],
    );
    assert(r->Object_0 =~= strict_shape_view(r->Object_0[1].1, r->Object_0[2].1)->Object_0);
    let v = value_schema_view();
    lemma_strict(
        v->Object_0[1].1,
        v->Object_0[2].1,
        seq![
            ("data"@, Some("string"@)),
            ("ttl"@, Some("integer"@)),
            ("priority"@, Some("integer"@)),
            ("weight"@, Some("integer"@)),
            ("port"@, Some("integer"@)),
            ("service"@, Some("string"@)),
            ("protocol"@, Some("string"@)),
        ],
        seq!["data"@],
    );
    assert(v->Object_0 =~= strict_shape_view(v->Object_0[1].1, v->Object_0[2].1)->Object_0);
}

/// The members of the schema of an object.
pub open spec fn props_of(schema: JsonView) -> JsonView {
    schema->Object_0[1].1
}

/// The required names of the schema of an object.
pub open spec fn required_of(schema: JsonView) -> JsonView {
    schema->Object_0[2].1
}

proof fn lemma_offers_strict(
    def: DefView,
    name: Seq<char>,
    properties: Seq<(Seq<char>, Option<Seq<char>>)>,
    required: Seq<Seq<char>>,
)
    requires
        def.name == name,
        def.input_schema is Object,
        def.input_schema->Object_0 == strict_shape_view(
            props_of(def.input_schema),
            required_of(def.input_schema),
        )->Object_0,
        props_of(def.input_schema) is Object,
        props_of(def.input_schema)->Object_0.len() == properties.len(),
        forall|i: int|
            0 <= i < properties.len() ==> {
                &&& (#[trigger] props_of(def.input_schema)->Object_0[i]).0 == properties[i].0
                &&& props_of(def.input_schema)->Object_0[i].1.member("type"@) == (
                match properties[i].1 {
                    Some(kind) => Some(JsonView::Str(kind)),
                    None => None,
                })
            },
        required_of(def.input_schema) is Array,
        required_of(def.input_schema)->Array_0.len() == required.len(),
        required.len() > 0,
        forall|i: int|
            0 <= i < required.len() ==> (#[trigger] required_of(def.input_schema)->Array_0[i])
                == JsonView::Str(required[i]),
    ensures
        offers(def, name, properties, required),
{
    lemma_strict(
        props_of(def.input_schema),
        required_of(def.input_schema),
        properties,
        required,
    );
}

/// The meta-tools ask for these arguments.
pub proof fn law_meta_tools_ask_for_their_arguments()
    ensures
        meta_tools_view().len() == 5,
        offers(meta_tools_view()[0], "list_servers"@, seq![], seq![]),
        offers(
            meta_tools_view()[1],
            "search_tools"@,
            seq![("query"@, Some("string"@))],
            seq!["query"@],
        ),
        offers(
            meta_tools_view()[2],
            "load_server"@,
            seq![("name"@, Some("string"@))],
            seq!["name"@],
        ),
        offers(
            meta_tools_view()[3],
            "call_tool"@,
            seq![
                ("server"@, Some("string"@)),
                ("tool"@, Some("string"@)),
                ("arguments"@, Some("object"@)),
            ],
            seq!["server"@, "tool"@],
        ),
        offers(
            meta_tools_view()[4],
            "drop_server"@,
            seq![("name"@, Some("string"@))],
            seq!["name"@],
        ),
{
    lemma_properties_say_their_type();
    let all = meta_tools_view();
    lemma_loose(JsonView::object(), seq![]);
    lemma_offers_strict(all[1], "search_tools"@, seq![("query"@, Some("string"@))], seq!["query"@]);
    lemma_offers_strict(all[2], "load_server"@, seq![("name"@, Some("string"@))], seq!["name"@]);
    lemma_offers_strict(
        all[3],
        "call_tool"@,
        seq![
            ("server"@, Some("string"@)),
            ("tool"@, Some("string"@)),
            ("arguments"@, Some("object"@)),
        ],
        seq!["server"@, "tool"@],
    );
    lemma_offers_strict(all[4], "drop_server"@, seq![("name"@, Some("string"@))], seq!["name"@]);
}

/// The tools of the archiving server ask for these arguments.
pub proof fn law_archiving_tools_ask_for_their_arguments()
    ensures
        ytdl::server::tools_surface().len() == 6,
        offers(
            ytdl::server::tools_surface()[0],
            "video_info"@,
            seq![("url"@, Some("string"@)), ("full"@, Some("boolean"@))],
            seq!["url"@],
        ),
        offers(
            ytdl::server::tools_surface()[1],
            "download_video"@,
            seq![
                ("url"@, Some("string"@)),
                ("max_height"@, Some("integer"@)),
                ("playlist"@, Some("boolean"@)),
                ("output_dir"@, Some("string"@)),
            ],
            seq!["url"@],
        ),
        offers(
            ytdl::server::tools_surface()[2],
            "download_audio"@,
            seq![
                ("url"@, Some("string"@)),
                ("playlist"@, Some("boolean"@)),
                ("output_dir"@, Some("string"@)),
            ],
            seq!["url"@],
        ),
        offers(
            ytdl::server::tools_surface()[3],
            "fetch_transcript"@,
            seq![
                ("url"@, Some("string"@)),
                ("lang"@, Some("string"@)),
                ("srt"@, Some("boolean"@)),
                ("whisper"@, Some("boolean"@)),
                ("output_file"@, Some("string"@)),
            ],
            seq!["url"@],
        ),
        offers(ytdl::server::tools_surface()[4], "session_status"@, seq![], seq![]),
        offers(
            ytdl::server::tools_surface()[5],
            "list_downloads"@,
            seq![("dir"@, Some("string"@)), ("limit"@, Some("integer"@))],
            seq![],
        ),
{
    lemma_properties_say_their_type();
    let all = ytdl::server::tools_surface();
    lemma_offers_strict(
        all[0],
        "video_info"@,
        seq![("url"@, Some("string"@)), ("full"@, Some("boolean"@))],
        seq!["url"@],
    );
    lemma_offers_strict(
        all[1],
        "download_video"@,
        seq![
            ("url"@, Some("string"@)),
            ("max_height"@, Some("integer"@)),
            ("playlist"@, Some("boolean"@)),
            ("output_dir"@, Some("string"@)),
        ],
        seq!["url"@],
    );
    lemma_offers_strict(
        all[2],
        "download_audio"@,
        seq![
            ("url"@, Some("string"@)),
            ("playlist"@, Some("boolean"@)),
            ("output_dir"@, Some("string"@)),
        ],
        seq!["url"@],
    );
    lemma_offers_strict(
        all[3],
        "fetch_transcript"@,
        seq![
            ("url"@, Some("string"@)),
            ("lang"@, Some("string"@)),
            ("srt"@, Some("boolean"@)),
            ("whisper"@, Some("boolean"@)),
            ("output_file"@, Some("string"@)),
        ],
        seq!["url"@],
    );
    lemma_loose(JsonView::object(), seq![]);
    lemma_loose(
        JsonView::object().with("dir"@, typed_view("string"@)).with(
            "limit"@,
            typed_view("integer"@),
        ),
        seq![("dir"@, Some("string"@)), ("limit"@, Some("integer"@))],
    );
}

/// The reading tools of the GoDaddy server, and its escape hatch, ask for these
/// arguments.
pub proof fn law_godaddy_reads_ask_for_their_arguments()
    ensures
        tools_surface().len() == 12,
        offers(
            tools_surface()[0],
            "list_domains"@,
            seq![
                ("statuses"@, Some("string"@)),
                ("limit"@, Some("integer"@)),
                ("marker"@, Some("string"@)),
            ],
            seq![],
        ),
        offers(
            tools_surface()[1],
            "get_domain"@,
            seq![("domain"@, Some("string"@))],
            seq!["domain"@],
        ),
        offers(
            tools_surface()[2],
            "check_availability"@,
            seq![("domain"@, Some("string"@))],
            seq!["domain"@],
        ),
        offers(tools_surface()[3], "list_tlds"@, seq![], seq![]),
        offers(
            tools_surface()[4],
            "list_dns_records"@,
            seq![
                ("domain"@, Some("string"@)),
                ("type"@, Some("string"@)),
                ("name"@, Some("string"@)),
            ],
            seq!["domain"@],
        ),
        offers(tools_surface()[10], "list_subscriptions"@, seq![], seq![]),
        offers(
            tools_surface()[11],
            "raw_api"@,
            seq![
                ("method"@, Some("string"@)),
                ("path"@, Some("string"@)),
                ("query"@, Some("object"@)),
                ("body"@, None),
            ],
            seq!["method"@, "path"@],
        ),
{
    lemma_properties_say_their_type();
    lemma_untyped();
    let all = tools_surface();
    lemma_loose(JsonView::object(), seq![]);
    lemma_loose(
        props_of(all[0].input_schema),
        seq![
            ("statuses"@, Some("string"@)),
            ("limit"@, Some("integer"@)),
            ("marker"@, Some("string"@)),
        ],
    );
    lemma_offers_strict(all[1], "get_domain"@, seq![("domain"@, Some("string"@))], seq!["domain"@]);
    lemma_offers_strict(
        all[2],
        "check_availability"@,
        seq![("domain"@, Some("string"@))],
        seq!["domain"@],
    );
    lemma_offers_strict(
        all[4],
        "list_dns_records"@,
        seq![
            ("domain"@, Some("string"@)),
            ("type"@, Some("string"@)),
            ("name"@, Some("string"@)),
        ],
        seq!["domain"@],
    );
    lemma_offers_strict(
        all[11],
        "raw_api"@,
        seq![
            ("method"@, Some("string"@)),
            ("path"@, Some("string"@)),
            ("query"@, Some("object"@)),
            ("body"@, None),
        ],
        seq!["method"@, "path"@],
    );
}

/// The property of that place is an array of what `items` says.
pub open spec fn lists(def: DefView, place: int, items: JsonView) -> bool {
    props_of(def.input_schema)->Object_0[place].1.member("items"@) == Some(items)
}

/// The writing tools of the GoDaddy server ask for these arguments: records and
/// record values as the schemas of those say, and nameservers as texts.
pub proof fn law_godaddy_writes_ask_for_their_arguments()
    ensures
        offers(
            tools_surface()[5],
            "add_dns_records"@,
            seq![("domain"@, Some("string"@)), ("records"@, Some("array"@))],
            seq!["domain"@, "records"@],
        ),
        lists(tools_surface()[5], 1, record_schema_view()),
        offers(
            tools_surface()[6],
            "set_dns_records"@,
            seq![
                ("domain"@, Some("string"@)),
                ("type"@, Some("string"@)),
                ("name"@, Some("string"@)),
                ("records"@, Some("array"@)),
            ],
            seq!["domain"@, "type"@, "name"@, "records"@],
        ),
        lists(tools_surface()[6], 3, value_schema_view()),
        offers(
            tools_surface()[7],
            "delete_dns_record"@,
            seq![
                ("domain"@, Some("string"@)),
                ("type"@, Some("string"@)),
                ("name"@, Some("string"@)),
            ],
            seq!["domain"@, "type"@, "name"@],
        ),
        offers(
            tools_surface()[8],
            "replace_all_dns_records"@,
            seq![("domain"@, Some("string"@)), ("records"@, Some("array"@))],
            seq!["domain"@, "records"@],
        ),
        lists(tools_surface()[8], 1, record_schema_view()),
        offers(
            tools_surface()[9],
            "set_nameservers"@,
            seq![("domain"@, Some("string"@)), ("nameservers"@, Some("array"@))],
            seq!["domain"@, "nameservers"@],
        ),
        lists(tools_surface()[9], 1, typed_view("string"@)),
{
    lemma_properties_say_their_type();
    let all = tools_surface();
    law_schemas_say_what_they_are_given(
        Seq::empty(),
        Seq::empty(),
        record_schema_view(),
        JsonView::Null,
    );
    law_schemas_say_what_they_are_given(
        Seq::empty(),
        Seq::empty(),
        value_schema_view(),
        JsonView::Null,
    );
    law_schemas_say_what_they_are_given(
        Seq::empty(),
        Seq::empty(),
        typed_view("string"@),
        JsonView::Null,
    );
    lemma_offers_strict(
        all[5],
        "add_dns_records"@,
        seq![("domain"@, Some("string"@)), ("records"@, Some("array"@))],
        seq!["domain"@, "records"@],
    );
    lemma_offers_strict(
        all[6],
        "set_dns_records"@,
        seq![
            ("domain"@, Some("string"@)),
            ("type"@, Some("string"@)),
            ("name"@, Some("string"@)),
            ("records"@, Some("array"@)),
        ],
        seq!["domain"@, "type"@, "name"@, "records"@],
    );
    lemma_offers_strict(
        all[7],
        "delete_dns_record"@,
        seq![
            ("domain"@, Some("string"@)),
            ("type"@, Some("string"@)),
            ("name"@, Some("string"@)),
        ],
        seq!["domain"@, "type"@, "name"@],
    );
    lemma_offers_strict(
        all[8],
        "replace_all_dns_records"@,
        seq![("domain"@, Some("string"@)), ("records"@, Some("array"@))],
        seq!["domain"@, "records"@],
    );
    lemma_offers_strict(
        all[9],
        "set_nameservers"@,
        seq![("domain"@, Some("string"@)), ("nameservers"@, Some("array"@))],
        seq!["domain"@, "nameservers"@],
    );
}

} // verus!
