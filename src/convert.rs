use vstd::prelude::*;

use crate::codec::{
    json_error_of, yaml_error_of, toml_error_of, toml_value_of, toml_text_pretty_writes,
    toml_text_pretty_of, toml_text_pretty_error_of, toml_text_compact_writes, toml_text_compact_of,
    toml_text_compact_error_of, yaml_write_error_of, toml_compact_error_of, toml_pretty_error_of,
    copy_number, distinct_keys, json_accepts, json_compact, json_compact_of, json_doc, json_node,
    json_of_node, json_pretty, json_pretty_of, json_value_of, node_doc, parse_json, parse_toml,
    parse_yaml, toml_accepts, toml_compact, toml_compact_of, toml_compact_writes, toml_json_of,
    toml_pretty, toml_pretty_of, toml_pretty_writes, toml_to_json, toml_tree_pretty, toml_tree_compact,
    yaml_accepts, yaml_text, yaml_text_of, yaml_value_of,
    yaml_writes, JsonNode,
};
use crate::error::{EncodeError, Error};
use crate::format::Format;
use crate::value::{
    doc_has_null, doc_of, keys_unique, lemma_entries_below, lemma_items_below,
    lemma_null_agrees, well_formed, ConfValue, Doc,
};

verus! {

/// The widest indentation, in spaces, that pretty output takes.
pub const MAX_INDENT: usize = 8;

/// The indentation of pretty output where none is asked for.
pub const DEFAULT_INDENT: usize = 2;

/// The key under which the toml crate hands a datetime to serde: a table
/// of this one key, whose value is the datetime's TOML text.
pub const TOML_DATETIME_KEY: &'static str = "$__toml_private_datetime";

/// Whether the format's parser accepts the text.
pub open spec fn accepts(format: Format, text: Seq<char>) -> bool {
    match format {
        Format::Json => json_accepts(text),
        Format::Yaml => yaml_accepts(text),
        Format::Toml => toml_accepts(text),
    }
}

/// A document with each table that stands for a TOML datetime replaced by
/// the datetime's text.
pub open spec fn dated(d: Doc) -> Doc
    decreases d,
{
    match d {
        Doc::Sequence(s) => Doc::Sequence(
            Seq::new(
                s.len(),
                |i: int|
                    if 0 <= i < s.len() {
                        dated(s[i])
                    } else {
                        Doc::Null
                    },
            ),
        ),
        Doc::Mapping(es) => {
            let es2 = Seq::new(
                es.len(),
                |i: int|
                    if 0 <= i < es.len() {
                        (es[i].0, dated(es[i].1))
                    } else {
                        (Seq::empty(), Doc::Null)
                    },
            );
            if es2.len() == 1 && es2[0].0 == TOML_DATETIME_KEY@ && es2[0].1 is Text {
                es2[0].1
            } else {
                Doc::Mapping(es2)
            }
        },
        _ => d,
    }
}

/// The document a text of the format holds, as this library reads it.
pub open spec fn decoded(format: Format, text: Seq<char>) -> Doc {
    match format {
        Format::Json => json_value_of(text),
        Format::Yaml => yaml_value_of(text),
        Format::Toml => dated(toml_value_of(text)),
    }
}

/// `n` spaces, as bytes.
pub open spec fn indent_bytes(n: nat) -> Seq<u8> {
    Seq::new(n, |_i: int| 32u8)
}

/// The error is a parse failure of the given format.
pub open spec fn is_parse_error_of(e: Error, format: Format) -> bool {
    e is Parse && e->Parse_format == format
}

/// The message the format's parser gives for a text it refuses.
pub open spec fn parse_message(format: Format, text: Seq<char>) -> Seq<char> {
    match format {
        Format::Json => json_error_of(text),
        Format::Yaml => yaml_error_of(text),
        Format::Toml => toml_error_of(text),
    }
}

/// The error is the parse failure of the format on the text, carrying the
/// parser's message unchanged.
pub open spec fn is_parse_failure(e: Error, format: Format, text: Seq<char>) -> bool {
    is_parse_error_of(e, format) && e->Parse_source@ == parse_message(format, text)
}

/// The error is a serializer's refusal carrying the given message.
pub open spec fn is_serializer_failure(e: Error, message: Seq<char>) -> bool {
    is_serializer_error(e) && e->Encode_0->Serializer_message@ == message
}

/// The toml crate's message where it refuses the document, compact or
/// pretty.
pub open spec fn toml_write_error(d: Doc, pretty: bool) -> Seq<char> {
    if pretty {
        toml_pretty_error_of(d)
    } else {
        toml_compact_error_of(d)
    }
}

/// The error is a refusal of a non-table document root.
pub open spec fn is_unsupported_root(e: Error) -> bool {
    e is Encode && e->Encode_0 is UnsupportedRoot
}

/// The error is a refusal to write a null.
pub open spec fn is_null_value(e: Error) -> bool {
    e is Encode && e->Encode_0 is NullValue
}

/// The error is a failure reported by a serializer.
pub open spec fn is_serializer_error(e: Error) -> bool {
    e is Encode && e->Encode_0 is Serializer
}

/// Whether the toml crate writes the document, compact or pretty.
pub open spec fn toml_writes(d: Doc, pretty: bool) -> bool {
    if pretty {
        toml_pretty_writes(d)
    } else {
        toml_compact_writes(d)
    }
}

/// The toml crate's text of the document, compact or pretty.
pub open spec fn toml_text(d: Doc, pretty: bool) -> Seq<char> {
    if pretty {
        toml_pretty_of(d)
    } else {
        toml_compact_of(d)
    }
}

/// `r` is what writing the document in the format gives. JSON always
/// succeeds, compact or indented by `indent` spaces; YAML has one layout,
/// whatever `pretty` and `indent` say; TOML refuses a root that is not a
/// table and any null, and is otherwise what its serializer gives.
pub open spec fn encoded(r: Result<String, Error>, d: Doc, format: Format, pretty: bool, indent: nat) -> bool {
    match format {
        Format::Json => r is Ok && r->Ok_0@ == (if pretty {
            json_pretty_of(d, indent_bytes(indent))
        } else {
            json_compact_of(d)
        }),
        Format::Yaml => (r is Ok <==> yaml_writes(d)) && (r is Ok ==> r->Ok_0@ == yaml_text_of(d)) && (
        r is Err ==> is_serializer_failure(r->Err_0, yaml_write_error_of(d))),
        Format::Toml => if !(d is Mapping) {
            r is Err && is_unsupported_root(r->Err_0)
        } else if doc_has_null(d) {
            r is Err && is_null_value(r->Err_0)
        } else {
            (r is Ok <==> toml_writes(d, pretty)) && (r is Ok ==> r->Ok_0@ == toml_text(d, pretty)) && (
            r is Err ==> is_serializer_failure(r->Err_0, toml_write_error(d, pretty)))
        },
    }
}

/// `r` is what writing the toml crate's tree of an accepted TOML text gives,
/// compact or pretty.
pub open spec fn toml_rewritten(r: Result<String, Error>, text: Seq<char>, pretty: bool) -> bool {
    let writes = if pretty {
        toml_text_pretty_writes(text)
    } else {
        toml_text_compact_writes(text)
    };
    let out = if pretty {
        toml_text_pretty_of(text)
    } else {
        toml_text_compact_of(text)
    };
    let err = if pretty {
        toml_text_pretty_error_of(text)
    } else {
        toml_text_compact_error_of(text)
    };
    (r is Ok <==> writes) && (r is Ok ==> r->Ok_0@ == out) && (r is Err ==> is_serializer_failure(
        r->Err_0,
        err,
    ))
}

/// `r` is what converting an accepted text gives: from TOML to TOML the
/// toml crate's own tree is written back, keeping datetimes and non-finite
/// floats; otherwise the decoded document is encoded.
pub open spec fn converted(r: Result<String, Error>, from: Format, to: Format, text: Seq<char>, pretty: bool) -> bool {
    if from == Format::Toml && to == Format::Toml {
        toml_rewritten(r, text, pretty)
    } else {
        encoded(r, decoded(from, text), to, pretty, DEFAULT_INDENT as nat)
    }
}

/// `r` is what re-writing an accepted text in its own format gives: JSON and
/// YAML as `encoded` in pretty mode; TOML from the toml crate's own tree,
/// which keeps datetimes and non-finite floats.
pub open spec fn reformatted(r: Result<String, Error>, format: Format, text: Seq<char>, indent: nat) -> bool {
    match format {
        Format::Toml => toml_rewritten(r, text, true),
        _ => encoded(r, decoded(format, text), format, true, indent),
    }
}

/// The document a serde_json tree holds, with TOML datetimes as text when
/// `dates` is set.
pub open spec fn imported(d: Doc, dates: bool) -> Doc {
    if dates {
        dated(d)
    } else {
        d
    }
}

/// Builds the library's value from a serde_json tree. With `dates`, a table
/// that stands for a TOML datetime becomes the datetime's text.
fn from_json(v: serde_json::Value, dates: bool) -> (r: ConfValue)
    ensures
        well_formed(r),
        doc_of(r) == imported(json_doc(v), dates),
    decreases json_doc(v),
{
    let ghost d = json_doc(v);
    match json_node(v) {
        JsonNode::Null => ConfValue::Null,
        JsonNode::Bool(b) => ConfValue::Bool(b),
        JsonNode::Number(n) => ConfValue::Number(n),
        JsonNode::Text(s) => ConfValue::Text(s),
        JsonNode::Array(mut items) => {
            let ghost orig = items@;
            let ghost s = d->Sequence_0;
            assert(s =~= Seq::new(orig.len(), |i: int| json_doc(orig[i])));
            let mut out: Vec<ConfValue> = Vec::new();
            while items.len() > 0
                invariant
                    d == json_doc(v),
                    d == Doc::Sequence(s),
                    s == Seq::new(orig.len(), |i: int| json_doc(orig[i])),
                    out@.len() <= orig.len(),
                    items@ == orig.subrange(out@.len() as int, orig.len() as int),
                    forall|j: int|
                        0 <= j < out@.len() ==> well_formed(#[trigger] out@[j]) && doc_of(out@[j])
                            == imported(s[j], dates),
                decreases items.len(),
            {
                let ghost k = out@.len() as int;
                let item = items.remove(0);
                proof {
                    assert(item == orig[k]);
                    assert(decreases_to!(d => d->Sequence_0));
                    assert(decreases_to!(d->Sequence_0 => d->Sequence_0[k]));
                    assert(json_doc(item) == s[k]);
                    assert(decreases_to!(d => json_doc(item)));
                }
                let x = from_json(item, dates);
                out.push(x);
                assert(items@ =~= orig.subrange(out@.len() as int, orig.len() as int));
            }
            let r = ConfValue::Sequence(out);
            assert(doc_of(r)->Sequence_0 =~= imported(d, dates)->Sequence_0);
            r
        },
        JsonNode::Object(mut entries) => {
            let ghost orig = entries@;
            let ghost s = d->Mapping_0;
            assert(s =~= Seq::new(orig.len(), |i: int| (orig[i].0@, json_doc(orig[i].1))));
            let mut out: Vec<(String, ConfValue)> = Vec::new();
            while entries.len() > 0
                invariant
                    d == json_doc(v),
                    d == Doc::Mapping(s),
                    s == Seq::new(orig.len(), |i: int| (orig[i].0@, json_doc(orig[i].1))),
                    distinct_keys(orig),
                    out@.len() <= orig.len(),
                    entries@ == orig.subrange(out@.len() as int, orig.len() as int),
                    forall|j: int|
                        0 <= j < out@.len() ==> (#[trigger] out@[j]).0 == orig[j].0 && well_formed(
                            out@[j].1,
                        ) && doc_of(out@[j].1) == imported(s[j].1, dates),
                decreases entries.len(),
            {
                let ghost k = out@.len() as int;
                let (key, item) = entries.remove(0);
                proof {
                    assert(key == orig[k].0 && item == orig[k].1);
                    assert(decreases_to!(d => d->Mapping_0));
                    assert(decreases_to!(d->Mapping_0 => d->Mapping_0[k]));
                    assert(decreases_to!(d->Mapping_0[k] => d->Mapping_0[k].1));
                    assert(json_doc(item) == s[k].1);
                    assert(decreases_to!(d => json_doc(item)));
                }
                let x = from_json(item, dates);
                out.push((key, x));
                assert(entries@ =~= orig.subrange(out@.len() as int, orig.len() as int));
            }
            assert(keys_unique(out@)) by {
                assert forall|i: int, j: int| 0 <= i < j < out@.len() implies #[trigger] out@[i].0@
                    != #[trigger] out@[j].0@ by {
                    assert(orig[i].0@ != orig[j].0@);
                }
            }
            let ghost target = imported(d, dates);
            if dates && out.len() == 1 && out[0].0 == TOML_DATETIME_KEY.to_owned() {
                if let ConfValue::Text(t) = &out[0].1 {
                    return ConfValue::Text(t.clone());
                }
            }
            let r = ConfValue::Mapping(out);
            assert(doc_of(r)->Mapping_0 =~= imported(d, dates)->Mapping_0);
            r
        },
    }
}

/// The serde_json tree of a value, entries in the value's order.
fn to_json(v: &ConfValue) -> (r: serde_json::Value)
    requires
        well_formed(*v),
    ensures
        json_doc(r) == doc_of(*v),
    decreases *v,
{
    match v {
        ConfValue::Null => json_of_node(JsonNode::Null),
        ConfValue::Bool(b) => json_of_node(JsonNode::Bool(*b)),
        ConfValue::Number(n) => json_of_node(JsonNode::Number(copy_number(n))),
        ConfValue::Text(s) => json_of_node(JsonNode::Text(s.clone())),
        ConfValue::Sequence(items) => {
            let mut out: Vec<serde_json::Value> = Vec::new();
            let mut i: usize = 0;
            while i < items.len()
                invariant
                    *v == ConfValue::Sequence(*items),
                    well_formed(*v),
                    0 <= i <= items.len(),
                    out@.len() == i,
                    forall|j: int| 0 <= j < i ==> json_doc(#[trigger] out@[j]) == doc_of(items@[j]),
                decreases items.len() - i,
            {
                proof {
                    lemma_items_below(*v);
                    assert(decreases_to!(*v => v->Sequence_0@[i as int]));
                }
                out.push(to_json(&items[i]));
                i = i + 1;
            }
            let ghost n = JsonNode::Array(out);
            let r = json_of_node(JsonNode::Array(out));
            assert(node_doc(n)->Sequence_0 =~= doc_of(*v)->Sequence_0);
            r
        },
        ConfValue::Mapping(entries) => {
            let mut out: Vec<(String, serde_json::Value)> = Vec::new();
            let mut i: usize = 0;
            while i < entries.len()
                invariant
                    *v == ConfValue::Mapping(*entries),
                    well_formed(*v),
                    0 <= i <= entries.len(),
                    out@.len() == i,
                    forall|j: int|
                        0 <= j < i ==> (#[trigger] out@[j]).0 == entries@[j].0 && json_doc(out@[j].1)
                            == doc_of(entries@[j].1),
                decreases entries.len() - i,
            {
                proof {
                    lemma_entries_below(*v);
                    assert(decreases_to!(*v => v->Mapping_0@[i as int].1));
                }
                out.push((entries[i].0.clone(), to_json(&entries[i].1)));
                i = i + 1;
            }
            assert(distinct_keys(out@)) by {
                assert forall|a: int, b: int| 0 <= a < b < out@.len() implies #[trigger] out@[a].0@
                    != #[trigger] out@[b].0@ by {
                    assert(entries@[a].0@ != entries@[b].0@);
                }
            }
            let ghost n = JsonNode::Object(out);
            let r = json_of_node(JsonNode::Object(out));
            assert(node_doc(n)->Mapping_0 =~= doc_of(*v)->Mapping_0);
            r
        },
    }
}

/// `n` space characters, as bytes.
fn spaces(n: usize) -> (r: Vec<u8>)
    ensures
        r@ == indent_bytes(n as nat),
{
    let mut r: Vec<u8> = Vec::new();
    while r.len() < n
        invariant
            r.len() <= n,
            r@ == indent_bytes(r.len() as nat),
        decreases n - r.len(),
    {
        r.push(32u8);
        assert(r@ =~= indent_bytes(r.len() as nat));
    }
    r
}

/// Reads a document of the given format into the value model.
///
/// A text the format's parser refuses gives `Error::Parse` naming that
/// format; any other text gives its document, with unique keys in each
/// mapping (where the text repeats a key, the parser's rule decides which
/// value stays) and, from TOML, each datetime as a string of its text.
pub fn decode(text: &str, format: Format) -> (r: Result<ConfValue, Error>)
    ensures
        accepts(format, text@) ==> r is Ok && well_formed(r->Ok_0) && doc_of(r->Ok_0) == decoded(
            format,
            text@,
        ),
        !accepts(format, text@) ==> r is Err && is_parse_failure(r->Err_0, format, text@),
{
    match format {
        Format::Json => match parse_json(text) {
            Ok(t) => Ok(from_json(t, false)),
            Err(m) => Err(Error::Parse { format, source: m }),
        },
        Format::Yaml => match parse_yaml(text) {
            Ok(t) => Ok(from_json(t, false)),
            Err(m) => Err(Error::Parse { format, source: m }),
        },
        Format::Toml => match parse_toml(text) {
            Ok(t) => match toml_to_json(t) {
                Ok(j) => Ok(from_json(j, true)),
                Err(m) => Err(Error::Convert { message: m }),
            },
            Err(m) => Err(Error::Parse { format, source: m }),
        },
    }
}

/// Writes a value in the given format, as `encoded` states: JSON compact or
/// indented by `indent` spaces per level; YAML in its one block layout;
/// TOML only from a table holding no null, arrays spread over lines when
/// `pretty`.
pub fn encode(value: &ConfValue, format: Format, pretty: bool, indent: usize) -> (r: Result<String, Error>)
    requires
        well_formed(*value),
        1 <= indent <= MAX_INDENT,
    ensures
        encoded(r, doc_of(*value), format, pretty, indent as nat),
{
    proof {
        lemma_null_agrees(*value);
    }
    if format == Format::Toml {
        if !value.is_mapping() {
            return Err(Error::Encode(EncodeError::UnsupportedRoot));
        }
        if value.contains_null() {
            return Err(Error::Encode(EncodeError::NullValue));
        }
    }
    let tree = to_json(value);
    let out = match format {
        Format::Json => if pretty {
            let pad = spaces(indent);
            json_pretty(&tree, pad.as_slice())
        } else {
            json_compact(&tree)
        },
        Format::Yaml => yaml_text(&tree),
        Format::Toml => if pretty {
            toml_pretty(&tree)
        } else {
            toml_compact(&tree)
        },
    };
    match out {
        Ok(t) => Ok(t),
        Err(m) => Err(Error::Encode(EncodeError::Serializer { message: m })),
    }
}

/// Writes the toml crate's own tree of a TOML text back as TOML.
fn rewrite_toml(input: &str, pretty: bool) -> (r: Result<String, Error>)
    ensures
        !toml_accepts(input@) ==> r is Err && is_parse_failure(r->Err_0, Format::Toml, input@),
        toml_accepts(input@) ==> toml_rewritten(r, input@, pretty),
{
    match parse_toml(input) {
        Ok(tree) => {
            let out = if pretty {
                toml_tree_pretty(&tree)
            } else {
                toml_tree_compact(&tree)
            };
            match out {
                Ok(t) => Ok(t),
                Err(m) => Err(Error::Encode(EncodeError::Serializer { message: m })),
            }
        },
        Err(m) => Err(Error::Parse { format: Format::Toml, source: m }),
    }
}

/// Converts a document from one format to another: decodes it with `from`
/// and encodes its document with `to`; a pretty JSON target is indented by
/// two spaces. From TOML to TOML the toml crate's own tree is written back.
pub fn convert(input: &str, from: Format, to: Format, pretty: bool) -> (r: Result<String, Error>)
    ensures
        !accepts(from, input@) ==> r is Err && is_parse_failure(r->Err_0, from, input@),
        accepts(from, input@) ==> converted(r, from, to, input@, pretty),
{
    if from == Format::Toml && to == Format::Toml {
        return rewrite_toml(input, pretty);
    }
    let value = decode(input, from)?;
    encode(&value, to, pretty, DEFAULT_INDENT)
}

/// Checks that a text is a well-formed document of the format; the value is
/// not kept.
pub fn validate(input: &str, format: Format) -> (r: Result<(), Error>)
    ensures
        r is Ok <==> accepts(format, input@),
        r is Err ==> is_parse_failure(r->Err_0, format, input@),
{
    let checked = match format {
        Format::Json => match parse_json(input) {
            Ok(_) => Ok(()),
            Err(m) => Err(m),
        },
        Format::Yaml => match parse_yaml(input) {
            Ok(_) => Ok(()),
            Err(m) => Err(m),
        },
        Format::Toml => match parse_toml(input) {
            Ok(_) => Ok(()),
            Err(m) => Err(m),
        },
    };
    match checked {
        Ok(()) => Ok(()),
        Err(m) => Err(Error::Parse { format, source: m }),
    }
}

/// Re-writes a document in its own format, always pretty: JSON indented by
/// `indent` spaces per level, YAML in its block layout, TOML from the toml
/// crate's own tree with arrays spread over lines.
pub fn format_file(input: &str, fmt: Format, indent: usize) -> (r: Result<String, Error>)
    requires
        1 <= indent <= MAX_INDENT,
    ensures
        !accepts(fmt, input@) ==> r is Err && is_parse_failure(r->Err_0, fmt, input@),
        accepts(fmt, input@) ==> reformatted(r, fmt, input@, indent as nat),
{
    match fmt {
        Format::Toml => rewrite_toml(input, true),
        _ => {
            let value = decode(input, fmt)?;
            encode(&value, fmt, true, indent)
        },
    }
}

} // verus!
