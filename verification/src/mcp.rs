//! What an MCP server of this project says: its tools and their input
//! schemas, its replies and its errors.

use crate::json::{json_pretty, Json, JsonView};
use vstd::prelude::*;
use vstd::string::*;

verus! {

/// The kinds of error that a tool call ends in.
#[derive(Debug, Clone, Copy, PartialEq, Eq, Structural)]
pub enum ErrorKind {
    /// The request itself is at fault.
    InvalidParams,
    /// Serving the request failed.
    Internal,
}

/// The error that a tool call ends in.
#[derive(Debug)]
pub struct ToolError {
    pub kind: ErrorKind,
    pub message: String,
}

/// What a [`ToolError`] holds.
pub struct ErrorView {
    pub kind: ErrorKind,
    pub message: Seq<char>,
}

impl View for ToolError {
    type V = ErrorView;

    open spec fn view(&self) -> ErrorView {
        ErrorView { kind: self.kind, message: self.message@ }
    }
}

/// The request is at fault.
pub open spec fn invalid(message: Seq<char>) -> ErrorView {
    ErrorView { kind: ErrorKind::InvalidParams, message }
}

/// Serving the request failed.
pub open spec fn internal(message: Seq<char>) -> ErrorView {
    ErrorView { kind: ErrorKind::Internal, message }
}

/// The request names a tool that is not on offer.
pub open spec fn unknown(name: Seq<char>) -> ErrorView {
    invalid("unknown tool '"@ + name + "'"@)
}

/// The request's arguments do not have the shape that the tool asks for.
pub open spec fn ill_formed(cause: Seq<char>) -> ErrorView {
    invalid("bad arguments: "@ + cause)
}

impl ToolError {
    /// The request is at fault.
    pub fn invalid_params(message: String) -> (r: ToolError)
        ensures
            r@ == invalid(message@),
    {
        ToolError { kind: ErrorKind::InvalidParams, message }
    }

    /// Serving the request failed.
    pub fn internal_error(message: String) -> (r: ToolError)
        ensures
            r@ == internal(message@),
    {
        ToolError { kind: ErrorKind::Internal, message }
    }

    /// The request names a tool that is not on offer.
    pub fn unknown_tool(name: &str) -> (r: ToolError)
        ensures
            r@ == unknown(name@),
    {
        let mut m: String = "unknown tool '".to_owned();
        m.append(name);
        m.append("'");
        ToolError::invalid_params(m)
    }

    /// The request's arguments do not have the shape that the tool asks for.
    pub fn bad_arguments(cause: &str) -> (r: ToolError)
        ensures
            r@ == ill_formed(cause@),
    {
        let mut m: String = "bad arguments: ".to_owned();
        m.append(cause);
        ToolError::invalid_params(m)
    }
}

/// How a server introduces itself.
#[derive(Debug)]
pub struct ServerInfo {
    pub name: &'static str,
    pub instructions: &'static str,
}

/// A tool that a server of this project offers.
#[derive(Debug)]
pub struct ToolDef {
    pub name: String,
    pub description: String,
    pub input_schema: Json,
}

/// What a [`ToolDef`] holds.
pub struct DefView {
    pub name: Seq<char>,
    pub description: Seq<char>,
    pub input_schema: JsonView,
}

impl View for ToolDef {
    type V = DefView;

    open spec fn view(&self) -> DefView {
        DefView {
            name: self.name@,
            description: self.description@,
            input_schema: self.input_schema@,
        }
    }
}

/// What a list of tools holds.
pub open spec fn defs_view(defs: Seq<ToolDef>) -> Seq<DefView> {
    Seq::new(defs.len(), |i: int| defs[i]@)
}

/// A tool.
pub fn tool(name: &str, description: &str, input_schema: Json) -> (r: ToolDef)
    ensures
        r@ == (DefView { name: name@, description: description@, input_schema: input_schema@ }),
{
    ToolDef { name: name.to_owned(), description: description.to_owned(), input_schema }
}

/// A property of the given type.
pub open spec fn typed_view(kind: Seq<char>) -> JsonView {
    JsonView::object().with("type"@, JsonView::Str(kind))
}

/// A property of the given type, with a description.
pub open spec fn described_view(kind: Seq<char>, description: Seq<char>) -> JsonView {
    typed_view(kind).with("description"@, JsonView::Str(description))
}

/// An array whose items are as `items` says.
pub open spec fn array_of_view(items: JsonView) -> JsonView {
    typed_view("array"@).with("items"@, items)
}

/// An object with the given properties, none of them required.
pub open spec fn shape_view(properties: JsonView) -> JsonView {
    typed_view("object"@).with("properties"@, properties)
}

/// An object with the given properties, some of them required.
pub open spec fn strict_shape_view(properties: JsonView, required: JsonView) -> JsonView {
    shape_view(properties).with("required"@, required)
}

/// A property of the given type.
pub fn typed(kind: &str) -> (r: Json)
    ensures
        r@ == typed_view(kind@),
        r is Object,
{
    Json::object().with("type", Json::text(kind))
}

/// A property of the given type, with a description.
pub fn described(kind: &str, description: &str) -> (r: Json)
    ensures
        r@ == described_view(kind@, description@),
        r is Object,
{
    typed(kind).with("description", Json::text(description))
}

/// An array whose items are as `items` says.
pub fn array_of(items: Json) -> (r: Json)
    ensures
        r@ == array_of_view(items@),
        r is Object,
{
    typed("array").with("items", items)
}

/// An object with the given properties, none of them required.
pub fn shape(properties: Json) -> (r: Json)
    ensures
        r@ == shape_view(properties@),
        r is Object,
{
    typed("object").with("properties", properties)
}

/// An object with the given properties, some of them required.
pub fn strict_shape(properties: Json, required: Json) -> (r: Json)
    ensures
        r@ == strict_shape_view(properties@, required@),
        r is Object,
{
    shape(properties).with("required", required)
}

/// Render a JSON value as the text of a successful tool result (pretty-printed).
pub fn text_result(value: &Json) -> (r: String)
    ensures
        r@ == json_pretty(value@),
{
    value.to_pretty()
}

} // verus!
