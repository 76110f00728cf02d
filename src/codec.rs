use vstd::prelude::*;

use crate::value::Doc;

verus! {

/// serde_json's dynamic document tree; carried whole between the outside
/// parsers and serializers.
#[verifier::external_type_specification]
#[verifier::external_body]
pub struct ExJsonValue(serde_json::Value);

/// The toml crate's document tree, as its parser produces it.
#[verifier::external_type_specification]
#[verifier::external_body]
pub struct ExTomlValue(toml::Value);

/// Whether serde_json parses the text as a JSON document.
pub uninterp spec fn json_accepts(text: Seq<char>) -> bool;

/// Whether serde_yml reads the text as one YAML document of the JSON data
/// model (string keys, scalars, sequences, mappings).
pub uninterp spec fn yaml_accepts(text: Seq<char>) -> bool;

/// Whether the toml crate parses the text as a TOML document.
pub uninterp spec fn toml_accepts(text: Seq<char>) -> bool;

/// What a serde_json tree holds.
pub uninterp spec fn json_doc(v: serde_json::Value) -> Doc;

/// The document serde_json reads from a JSON text.
pub uninterp spec fn json_value_of(text: Seq<char>) -> Doc;

/// The document serde_yml reads from a YAML text.
pub uninterp spec fn yaml_value_of(text: Seq<char>) -> Doc;

/// serde_json's message for a text it does not accept.
pub uninterp spec fn json_error_of(text: Seq<char>) -> Seq<char>;

/// serde_yml's message for a text it does not accept.
pub uninterp spec fn yaml_error_of(text: Seq<char>) -> Seq<char>;

/// The toml crate's message for a text it does not accept.
pub uninterp spec fn toml_error_of(text: Seq<char>) -> Seq<char>;

/// The document that serde_json makes of the toml tree read from a text.
pub uninterp spec fn toml_value_of(text: Seq<char>) -> Doc;

/// Whether `toml::to_string_pretty` writes the toml tree read from a text.
pub uninterp spec fn toml_text_pretty_writes(text: Seq<char>) -> bool;

/// `toml::to_string_pretty`'s text of the toml tree read from a text.
pub uninterp spec fn toml_text_pretty_of(text: Seq<char>) -> Seq<char>;

/// `toml::to_string_pretty`'s message where it refuses that tree.
pub uninterp spec fn toml_text_pretty_error_of(text: Seq<char>) -> Seq<char>;

/// Whether `toml::to_string` writes the toml tree read from a text.
pub uninterp spec fn toml_text_compact_writes(text: Seq<char>) -> bool;

/// `toml::to_string`'s text of the toml tree read from a text.
pub uninterp spec fn toml_text_compact_of(text: Seq<char>) -> Seq<char>;

/// `toml::to_string`'s message where it refuses that tree.
pub uninterp spec fn toml_text_compact_error_of(text: Seq<char>) -> Seq<char>;

/// What serde_json makes of a toml tree.
pub uninterp spec fn toml_json_of(v: toml::Value) -> Doc;

/// serde_json's compact text of a document.
pub uninterp spec fn json_compact_of(d: Doc) -> Seq<char>;

/// serde_json's pretty text of a document with the given indentation.
pub uninterp spec fn json_pretty_of(d: Doc, indent: Seq<u8>) -> Seq<char>;

/// Whether serde_yml writes the document.
pub uninterp spec fn yaml_writes(d: Doc) -> bool;

/// serde_yml's text of a document.
pub uninterp spec fn yaml_text_of(d: Doc) -> Seq<char>;

/// serde_yml's message where it refuses the document.
pub uninterp spec fn yaml_write_error_of(d: Doc) -> Seq<char>;

/// `toml::to_string`'s message where it refuses the document.
pub uninterp spec fn toml_compact_error_of(d: Doc) -> Seq<char>;

/// `toml::to_string_pretty`'s message where it refuses the document.
pub uninterp spec fn toml_pretty_error_of(d: Doc) -> Seq<char>;

/// `toml::to_string_pretty`'s message where it refuses a toml tree.
pub uninterp spec fn toml_tree_error_of(v: toml::Value) -> Seq<char>;

/// `toml::to_string`'s message where it refuses a toml tree.
pub uninterp spec fn toml_tree_compact_error_of(v: toml::Value) -> Seq<char>;

/// Whether `toml::to_string` writes the document.
pub uninterp spec fn toml_compact_writes(d: Doc) -> bool;

/// `toml::to_string`'s text of a document.
pub uninterp spec fn toml_compact_of(d: Doc) -> Seq<char>;

/// Whether `toml::to_string_pretty` writes the document.
pub uninterp spec fn toml_pretty_writes(d: Doc) -> bool;

/// `toml::to_string_pretty`'s text of a document.
pub uninterp spec fn toml_pretty_of(d: Doc) -> Seq<char>;

/// Whether `toml::to_string_pretty` writes a toml tree.
pub uninterp spec fn toml_tree_writes(v: toml::Value) -> bool;

/// `toml::to_string_pretty`'s text of a toml tree.
pub uninterp spec fn toml_tree_text_of(v: toml::Value) -> Seq<char>;

/// Whether `toml::to_string` writes a toml tree.
pub uninterp spec fn toml_tree_compact_writes(v: toml::Value) -> bool;

/// `toml::to_string`'s text of a toml tree.
pub uninterp spec fn toml_tree_compact_of(v: toml::Value) -> Seq<char>;

/// One level of a serde_json tree, its children left as serde_json trees.
pub enum JsonNode {
    Null,
    Bool(bool),
    Number(serde_json::Number),
    Text(String),
    Array(Vec<serde_json::Value>),
    Object(Vec<(String, serde_json::Value)>),
}

/// The keys of the entries are pairwise distinct.
pub open spec fn distinct_keys(entries: Seq<(String, serde_json::Value)>) -> bool {
    forall|i: int, j: int|
        0 <= i < j < entries.len() ==> #[trigger] entries[i].0@ != #[trigger] entries[j].0@
}

/// The document that one level of a tree, with its children, holds.
pub open spec fn node_doc(n: JsonNode) -> Doc {
    match n {
        JsonNode::Null => Doc::Null,
        JsonNode::Bool(b) => Doc::Bool(b),
        JsonNode::Number(x) => Doc::Number(x),
        JsonNode::Text(s) => Doc::Text(s@),
        JsonNode::Array(items) => Doc::Sequence(Seq::new(items@.len(), |i: int| json_doc(items@[i]))),
        JsonNode::Object(entries) => Doc::Mapping(
            Seq::new(entries@.len(), |i: int| (entries@[i].0@, json_doc(entries@[i].1))),
        ),
    }
}

/// Relies on serde_json::from_str: it returns a tree exactly when the text
/// is JSON it accepts, else its message.
#[verifier::external_body]
pub(crate) fn parse_json(text: &str) -> (r: Result<serde_json::Value, String>)
    ensures
        r is Ok <==> json_accepts(text@),
        r is Ok ==> json_doc(r->Ok_0) == json_value_of(text@),
        r is Err ==> r->Err_0@ == json_error_of(text@),
{
    serde_json::from_str(text).map_err(|e| e.to_string())
}

/// Relies on serde_yml::from_str, read into serde_json's tree: it returns a
/// tree exactly when the text is a YAML document it accepts.
#[verifier::external_body]
pub(crate) fn parse_yaml(text: &str) -> (r: Result<serde_json::Value, String>)
    ensures
        r is Ok <==> yaml_accepts(text@),
        r is Ok ==> json_doc(r->Ok_0) == yaml_value_of(text@),
        r is Err ==> r->Err_0@ == yaml_error_of(text@),
{
    serde_yml::from_str(text).map_err(|e| e.to_string())
}

/// Relies on toml::from_str, read into toml's own tree: it returns a tree
/// exactly when the text is TOML it accepts, else its message. What is
/// made of the tree (its serde_json document, its TOML texts) depends on
/// the text alone; the tables' hashers do not enter into it.
#[verifier::external_body]
pub(crate) fn parse_toml(text: &str) -> (r: Result<toml::Value, String>)
    ensures
        r is Ok <==> toml_accepts(text@),
        r is Err ==> r->Err_0@ == toml_error_of(text@),
        r is Ok ==> toml_json_of(r->Ok_0) == toml_value_of(text@),
        r is Ok ==> toml_tree_writes(r->Ok_0) == toml_text_pretty_writes(text@),
        r is Ok ==> toml_tree_text_of(r->Ok_0) == toml_text_pretty_of(text@),
        r is Ok ==> toml_tree_error_of(r->Ok_0) == toml_text_pretty_error_of(text@),
        r is Ok ==> toml_tree_compact_writes(r->Ok_0) == toml_text_compact_writes(text@),
        r is Ok ==> toml_tree_compact_of(r->Ok_0) == toml_text_compact_of(text@),
        r is Ok ==> toml_tree_compact_error_of(r->Ok_0) == toml_text_compact_error_of(text@),
{
    toml::from_str(text).map_err(|e| e.to_string())
}

/// Relies on serde_json::to_value: re-expresses a toml tree in serde_json's
/// model. Table keys are strings and a non-finite float becomes null, so
/// it does not fail.
#[verifier::external_body]
pub(crate) fn toml_to_json(v: toml::Value) -> (r: Result<serde_json::Value, String>)
    ensures
        r is Ok,
        json_doc(r->Ok_0) == toml_json_of(v),
{
    serde_json::to_value(v).map_err(|e| e.to_string())
}

/// Relies on serde_json::to_string: compact JSON text of the tree; writing
/// a tree with string keys into memory does not fail.
#[verifier::external_body]
pub(crate) fn json_compact(v: &serde_json::Value) -> (r: Result<String, String>)
    ensures
        r is Ok,
        r->Ok_0@ == json_compact_of(json_doc(*v)),
{
    serde_json::to_string(v).map_err(|e| e.to_string())
}

/// Relies on serde_json's PrettyFormatter: one line per element, each
/// nesting level indented by `indent`; writing into memory does not fail.
#[verifier::external_body]
pub(crate) fn json_pretty(v: &serde_json::Value, indent: &[u8]) -> (r: Result<String, String>)
    ensures
        r is Ok,
        r->Ok_0@ == json_pretty_of(json_doc(*v), indent@),
{
    let mut buf = Vec::new();
    let formatter = serde_json::ser::PrettyFormatter::with_indent(indent);
    let mut ser = serde_json::Serializer::with_formatter(&mut buf, formatter);
    serde::Serialize::serialize(v, &mut ser).map_err(|e| e.to_string())?;
    Ok(String::from_utf8_lossy(&buf).into_owned())
}

/// Relies on serde_yml::to_string: block-style YAML text of the tree.
#[verifier::external_body]
pub(crate) fn yaml_text(v: &serde_json::Value) -> (r: Result<String, String>)
    ensures
        r is Ok <==> yaml_writes(json_doc(*v)),
        r is Ok ==> r->Ok_0@ == yaml_text_of(json_doc(*v)),
        r is Err ==> r->Err_0@ == yaml_write_error_of(json_doc(*v)),
{
    serde_yml::to_string(v).map_err(|e| e.to_string())
}

/// Relies on toml::to_string: TOML text of the tree.
#[verifier::external_body]
pub(crate) fn toml_compact(v: &serde_json::Value) -> (r: Result<String, String>)
    ensures
        r is Ok <==> toml_compact_writes(json_doc(*v)),
        r is Ok ==> r->Ok_0@ == toml_compact_of(json_doc(*v)),
        r is Err ==> r->Err_0@ == toml_compact_error_of(json_doc(*v)),
{
    toml::to_string(v).map_err(|e| e.to_string())
}

/// Relies on toml::to_string_pretty: TOML text of the tree with arrays
/// spread over several lines.
#[verifier::external_body]
pub(crate) fn toml_pretty(v: &serde_json::Value) -> (r: Result<String, String>)
    ensures
        r is Ok <==> toml_pretty_writes(json_doc(*v)),
        r is Ok ==> r->Ok_0@ == toml_pretty_of(json_doc(*v)),
        r is Err ==> r->Err_0@ == toml_pretty_error_of(json_doc(*v)),
{
    toml::to_string_pretty(v).map_err(|e| e.to_string())
}

/// Relies on toml::to_string_pretty on toml's own tree, which keeps
/// datetimes and non-finite floats as they were read.
#[verifier::external_body]
pub(crate) fn toml_tree_pretty(v: &toml::Value) -> (r: Result<String, String>)
    ensures
        r is Ok <==> toml_tree_writes(*v),
        r is Ok ==> r->Ok_0@ == toml_tree_text_of(*v),
        r is Err ==> r->Err_0@ == toml_tree_error_of(*v),
{
    toml::to_string_pretty(v).map_err(|e| e.to_string())
}

/// Relies on toml::to_string on toml's own tree, which keeps datetimes and
/// non-finite floats as they were read.
#[verifier::external_body]
pub(crate) fn toml_tree_compact(v: &toml::Value) -> (r: Result<String, String>)
    ensures
        r is Ok <==> toml_tree_compact_writes(*v),
        r is Ok ==> r->Ok_0@ == toml_tree_compact_of(*v),
        r is Err ==> r->Err_0@ == toml_tree_compact_error_of(*v),
{
    toml::to_string(v).map_err(|e| e.to_string())
}

/// Relies on serde_json::Value's variants: takes one level of a tree apart,
/// keeping the order of an object's entries, whose keys are distinct.
#[verifier::external_body]
pub(crate) fn json_node(v: serde_json::Value) -> (r: JsonNode)
    ensures
        node_doc(r) == json_doc(v),
        r is Object ==> distinct_keys(r->Object_0@),
{
    match v {
        serde_json::Value::Null => JsonNode::Null,
        serde_json::Value::Bool(b) => JsonNode::Bool(b),
        serde_json::Value::Number(n) => JsonNode::Number(n),
        serde_json::Value::String(s) => JsonNode::Text(s),
        serde_json::Value::Array(a) => JsonNode::Array(a),
        serde_json::Value::Object(m) => JsonNode::Object(m.into_iter().collect()),
    }
}

/// Relies on serde_json::Value's variants: puts one level of a tree
/// together, keeping the order of an object's entries.
#[verifier::external_body]
pub(crate) fn json_of_node(n: JsonNode) -> (r: serde_json::Value)
    requires
        n is Object ==> distinct_keys(n->Object_0@),
    ensures
        json_doc(r) == node_doc(n),
{
    match n {
        JsonNode::Null => serde_json::Value::Null,
        JsonNode::Bool(b) => serde_json::Value::Bool(b),
        JsonNode::Number(x) => serde_json::Value::Number(x),
        JsonNode::Text(s) => serde_json::Value::String(s),
        JsonNode::Array(a) => serde_json::Value::Array(a),
        JsonNode::Object(e) => serde_json::Value::Object(e.into_iter().collect()),
    }
}

/// Relies on serde_json::Number's `Clone`.
#[verifier::external_body]
pub(crate) fn copy_number(n: &serde_json::Number) -> (r: serde_json::Number)
    ensures
        r == *n,
{
    n.clone()
}

} // verus!
