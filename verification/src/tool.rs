//! An advertised tool, and the shape of the schema that describes its input.

use vstd::prelude::*;
use vstd::string::StringExecFns;
use crate::json::lemma_array_view;
use crate::json::lemma_object_view;
use crate::json::members;
use crate::json::views;
use crate::json::Json;
use crate::json::JsonEntry;
use crate::json::JsonObject;
use crate::json::JsonValue;
use crate::json::Member;
use crate::text::slices;

verus! {

/// The view of an optional value.
pub open spec fn opt_json(v: Option<JsonValue>) -> Option<Json> {
    match v {
        Some(value) => Some(value@),
        None => None,
    }
}

/// The schema of one advertised parameter: its type, its description and,
/// where it has one, its default.
pub open spec fn property(ty: Seq<char>, description: Seq<char>, default: Option<Json>) -> Json {
    let base = seq![
        Member { key: "type"@, value: Json::Text(ty) },
        Member { key: "description"@, value: Json::Text(description) },
    ];
    match default {
        Some(d) => Json::Object(base.push(Member { key: "default"@, value: d })),
        None => Json::Object(base),
    }
}

/// Each text as a JSON string.
pub open spec fn text_values(names: Seq<Seq<char>>) -> Seq<Json> {
    names.map_values(|t: Seq<char>| Json::Text(t))
}

/// The input schema given the properties and the required names: an object
/// schema, with `required` only where something is required.
pub open spec fn object_schema(properties: Seq<Member>, required: Seq<Seq<char>>) -> Seq<Member> {
    let head = seq![
        Member { key: "type"@, value: Json::Text("object"@) },
        Member { key: "properties"@, value: Json::Object(properties) },
    ];
    if required.len() > 0 {
        head.push(Member { key: "required"@, value: Json::Array(text_values(required)) })
    } else {
        head
    }
}

/// An advertised tool, as mathematics sees it.
pub struct ToolView {
    pub name: Seq<char>,
    pub description: Seq<char>,
    pub input_schema: Seq<Member>,
}

/// An advertised tool: its name, its description and the schema of its input.
#[derive(Debug, PartialEq)]
pub struct Tool {
    pub name: String,
    pub description: String,
    pub input_schema: JsonObject,
}

impl Clone for Tool {
    fn clone(&self) -> (r: Self)
        ensures
            r@ == self@,
    {
        Tool {
            name: self.name.clone(),
            description: self.description.clone(),
            input_schema: self.input_schema.clone(),
        }
    }
}

impl View for Tool {
    type V = ToolView;

    open spec fn view(&self) -> ToolView {
        ToolView {
            name: self.name@,
            description: self.description@,
            input_schema: self.input_schema@,
        }
    }
}

/// The views of a sequence of tools.
pub open spec fn tool_views(tools: Seq<Tool>) -> Seq<ToolView> {
    tools.map_values(|t: Tool| t@)
}

/// The schema of one advertised parameter.
pub(crate) fn property_schema(ty: &str, description: String, default: Option<JsonValue>) -> (r: JsonValue)
    ensures
        r@ == property(ty@, description@, opt_json(default)),
{
    let mut entries: Vec<JsonEntry> = Vec::new();
    entries.push(JsonEntry { key: String::from_str("type"), value: JsonValue::Text(String::from_str(ty)) });
    entries.push(JsonEntry { key: String::from_str("description"), value: JsonValue::Text(description) });
    match default {
        Some(d) => {
            entries.push(JsonEntry { key: String::from_str("default"), value: d });
        },
        None => {},
    }
    let object = JsonObject { entries };
    proof {
        lemma_object_view(object);
        assert(object@ =~= property(ty@, description@, opt_json(default))->Object_0);
    }
    JsonValue::Object(object)
}

/// A copy of an optional value.
pub(crate) fn copy_default(default: &Option<JsonValue>) -> (r: Option<JsonValue>)
    ensures
        opt_json(r) == opt_json(*default),
{
    match default {
        Some(d) => Some(d.clone()),
        None => None,
    }
}

/// The object schema with the given properties and required names.
pub(crate) fn schema_object(properties: JsonObject, required: Vec<JsonValue>, Ghost(names): Ghost<
    Seq<Seq<char>>,
>) -> (r: JsonObject)
    requires
        views(required@) == text_values(names),
    ensures
        r@ == object_schema(properties@, names),
{
    let mut entries: Vec<JsonEntry> = Vec::new();
    entries.push(
        JsonEntry {
            key: String::from_str("type"),
            value: JsonValue::Text(String::from_str("object")),
        },
    );
    proof {
        lemma_object_view(properties);
    }
    entries.push(JsonEntry { key: String::from_str("properties"), value: JsonValue::Object(properties) });
    if required.len() > 0 {
        proof {
            lemma_array_view(required);
        }
        entries.push(JsonEntry { key: String::from_str("required"), value: JsonValue::Array(required) });
    }
    let r = JsonObject { entries };
    proof {
        assert(text_values(names).len() == names.len());
    }
    r
}

/// A parameter without default, as a schema lists it.
pub open spec fn parameter(name: Seq<char>, ty: Seq<char>, description: Seq<char>) -> Member {
    Member { key: name, value: property(ty, description, None) }
}

/// The tool of the given name and description whose input has the given
/// properties, of which those named in `required` must be supplied.
pub open spec fn tool_view(
    name: Seq<char>,
    description: Seq<char>,
    properties: Seq<Member>,
    required: Seq<Seq<char>>,
) -> ToolView {
    ToolView { name, description, input_schema: object_schema(properties, required) }
}

/// The member of an object with `value` under `key`.
pub(crate) fn entry(key: &str, value: JsonValue) -> (r: JsonEntry)
    ensures
        r.key@ == key@,
        r.value@ == value@,
{
    JsonEntry { key: String::from_str(key), value }
}

/// The JSON string that holds `s`.
pub(crate) fn text_json(s: &str) -> (r: JsonValue)
    ensures
        r@ == Json::Text(s@),
{
    JsonValue::Text(String::from_str(s))
}

/// The object with the given members.
pub(crate) fn object_json(entries: Vec<JsonEntry>) -> (r: JsonValue)
    ensures
        r@ == Json::Object(members(entries@)),
{
    let object = JsonObject { entries };
    proof {
        lemma_object_view(object);
    }
    JsonValue::Object(object)
}

/// A parameter without default, as a schema lists it.
pub(crate) fn parameter_entry(name: &str, ty: &str, description: &str) -> (r: JsonEntry)
    ensures
        r.key@ == name@,
        r.value@ == property(ty@, description@, None),
{
    entry(name, property_schema(ty, String::from_str(description), None))
}

/// A parameter with a default, as a schema lists it.
pub(crate) fn parameter_entry_with_default(
    name: &str,
    ty: &str,
    description: &str,
    default: JsonValue,
) -> (r: JsonEntry)
    ensures
        r.key@ == name@,
        r.value@ == property(ty@, description@, Some(default@)),
{
    entry(name, property_schema(ty, String::from_str(description), Some(default)))
}

/// The tool of the given name and description whose input has the given
/// properties, of which those named in `required` must be supplied.
pub(crate) fn make_tool(
    name: &str,
    description: &str,
    properties: Vec<JsonEntry>,
    required: &[&str],
) -> (r: Tool)
    ensures
        r@ == tool_view(
            name@,
            description@,
            members(properties@),
            slices(required@),
        ),
{
    let ghost names = slices(required@);
    let mut values: Vec<JsonValue> = Vec::new();
    let mut i: usize = 0;
    while i < required.len()
        invariant
            i <= required.len(),
            values@.len() == i,
            forall|k: int| 0 <= k < i ==> values@[k]@ == Json::Text(required@[k]@),
        decreases required.len() - i,
    {
        values.push(text_json(required[i]));
        i += 1;
    }
    proof {
        assert(views(values@) =~= text_values(names));
    }
    let input_schema = schema_object(JsonObject { entries: properties }, values, Ghost(names));
    Tool { name: String::from_str(name), description: String::from_str(description), input_schema }
}

} // verus!
