use vstd::prelude::*;

verus! {

/// A JSON number as serde_json holds it: an integer or a float, kept apart.
#[verifier::external_type_specification]
#[verifier::external_body]
pub struct ExNumber(serde_json::Number);

/// The document model that every decoder produces and every encoder reads.
pub enum ConfValue {
    Null,
    Bool(bool),
    Number(serde_json::Number),
    Text(String),
    Sequence(Vec<ConfValue>),
    /// Entries in the order the document gives them; keys are unique.
    Mapping(Vec<(String, ConfValue)>),
}

/// The mathematical content of a document: what a `ConfValue` holds, with
/// strings as character sequences and lists as sequences.
pub enum Doc {
    Null,
    Bool(bool),
    Number(serde_json::Number),
    Text(Seq<char>),
    Sequence(Seq<Doc>),
    Mapping(Seq<(Seq<char>, Doc)>),
}

/// The content of a value.
pub open spec fn doc_of(v: ConfValue) -> Doc
    decreases v
        via doc_of_decreases
{
    match v {
        ConfValue::Null => Doc::Null,
        ConfValue::Bool(b) => Doc::Bool(b),
        ConfValue::Number(n) => Doc::Number(n),
        ConfValue::Text(s) => Doc::Text(s@),
        ConfValue::Sequence(items) => Doc::Sequence(
            Seq::new(items@.len(), |i: int|
                if 0 <= i < items@.len() {
                    doc_of(items@[i])
                } else {
                    Doc::Null
                }),
        ),
        ConfValue::Mapping(entries) => Doc::Mapping(
            Seq::new(entries@.len(), |i: int|
                if 0 <= i < entries@.len() {
                    (entries@[i].0@, doc_of(entries@[i].1))
                } else {
                    (Seq::empty(), Doc::Null)
                }),
        ),
    }
}

#[via_fn]
proof fn doc_of_decreases(v: ConfValue) {
    match v {
        ConfValue::Sequence(_) => lemma_items_below(v),
        ConfValue::Mapping(_) => lemma_entries_below(v),
        _ => {},
    }
}

/// No key occurs twice among the entries.
pub open spec fn keys_unique(entries: Seq<(String, ConfValue)>) -> bool {
    forall|i: int, j: int|
        0 <= i < j < entries.len() ==> #[trigger] entries[i].0@ != #[trigger] entries[j].0@
}

/// A value is well formed when each of its mappings, at any depth, has
/// unique keys.
pub open spec fn well_formed(v: ConfValue) -> bool
    decreases v,
{
    match v {
        ConfValue::Sequence(items) => forall|i: int|
            #![trigger items@[i]] 0 <= i < items@.len() ==> well_formed(items@[i]),
        ConfValue::Mapping(entries) => keys_unique(entries@) && forall|i: int|
            #![trigger entries@[i]] 0 <= i < entries@.len() ==> well_formed(entries@[i].1),
        _ => true,
    }
}

/// Whether a null occurs anywhere in the value.
pub open spec fn has_null(v: ConfValue) -> bool
    decreases v,
{
    match v {
        ConfValue::Null => true,
        ConfValue::Sequence(items) => exists|i: int| #![trigger items@[i]] 0 <= i < items@.len() && has_null(items@[i]),
        ConfValue::Mapping(entries) => exists|i: int|
            #![trigger entries@[i]] 0 <= i < entries@.len() && has_null(entries@[i].1),
        _ => false,
    }
}

/// Each item of a sequence value lies strictly below it.
pub proof fn lemma_items_below(v: ConfValue)
    requires
        v is Sequence,
    ensures
        forall|i: int|
            0 <= i < v->Sequence_0@.len() ==> decreases_to!(v => #[trigger] v->Sequence_0@[i]),
{
    assert forall|i: int| 0 <= i < v->Sequence_0@.len() implies decreases_to!(v => #[trigger] v->Sequence_0@[i]) by {
        assert(decreases_to!(v => v->Sequence_0));
        assert(decreases_to!(v->Sequence_0 => v->Sequence_0@));
        assert(decreases_to!(v->Sequence_0@ => v->Sequence_0@[i]));
    }
}

/// Each entry's value of a mapping value lies strictly below it.
pub proof fn lemma_entries_below(v: ConfValue)
    requires
        v is Mapping,
    ensures
        forall|i: int|
            0 <= i < v->Mapping_0@.len() ==> decreases_to!(v => #[trigger] v->Mapping_0@[i].1),
{
    assert forall|i: int| 0 <= i < v->Mapping_0@.len() implies decreases_to!(v => #[trigger] v->Mapping_0@[i].1) by {
        assert(decreases_to!(v => v->Mapping_0));
        assert(decreases_to!(v->Mapping_0 => v->Mapping_0@));
        assert(decreases_to!(v->Mapping_0@ => v->Mapping_0@[i]));
        assert(decreases_to!(v->Mapping_0@[i] => v->Mapping_0@[i].1));
    }
}

/// Whether a null occurs anywhere in the document.
pub open spec fn doc_has_null(d: Doc) -> bool
    decreases d,
{
    match d {
        Doc::Null => true,
        Doc::Sequence(s) => exists|i: int| #![trigger s[i]] 0 <= i < s.len() && doc_has_null(s[i]),
        Doc::Mapping(es) => exists|i: int| #![trigger es[i]] 0 <= i < es.len() && doc_has_null(es[i].1),
        _ => false,
    }
}

/// A value holds a null exactly when its content does.
pub proof fn lemma_null_agrees(v: ConfValue)
    ensures
        has_null(v) == doc_has_null(doc_of(v)),
    decreases v,
{
    match v {
        ConfValue::Sequence(items) => {
            lemma_items_below(v);
            let s = doc_of(v)->Sequence_0;
            assert forall|i: int| 0 <= i < items@.len() implies has_null(items@[i]) == doc_has_null(
                #[trigger] s[i],
            ) by {
                lemma_null_agrees(items@[i]);
            }
            if has_null(v) {
                let i = choose|i: int| 0 <= i < items@.len() && has_null(items@[i]);
                assert(doc_has_null(s[i]));
            }
            if doc_has_null(doc_of(v)) {
                let i = choose|i: int| 0 <= i < s.len() && doc_has_null(s[i]);
                assert(has_null(items@[i]));
            }
        },
        ConfValue::Mapping(entries) => {
            lemma_entries_below(v);
            let s = doc_of(v)->Mapping_0;
            assert forall|i: int| 0 <= i < entries@.len() implies has_null(entries@[i].1)
                == doc_has_null(#[trigger] s[i].1) by {
                lemma_null_agrees(entries@[i].1);
            }
            if has_null(v) {
                let i = choose|i: int| 0 <= i < entries@.len() && has_null(entries@[i].1);
                assert(doc_has_null(s[i].1));
            }
            if doc_has_null(doc_of(v)) {
                let i = choose|i: int| 0 <= i < s.len() && doc_has_null(s[i].1);
                assert(has_null(entries@[i].1));
            }
        },
        _ => {},
    }
}

impl ConfValue {
    /// Whether the value is a mapping.
    pub fn is_mapping(&self) -> (r: bool)
        ensures
            r == (*self is Mapping),
    {
        match self {
            ConfValue::Mapping(_) => true,
            _ => false,
        }
    }

    /// Whether a null occurs anywhere in the value.
    pub fn contains_null(&self) -> (r: bool)
        ensures
            r == has_null(*self),
    {
        value_has_null(self)
    }
}

fn value_has_null(v: &ConfValue) -> (r: bool)
    ensures
        r == has_null(*v),
    decreases *v,
{
    match v {
        ConfValue::Null => true,
        ConfValue::Sequence(items) => {
            let mut i: usize = 0;
            while i < items.len()
                invariant
                    *v == ConfValue::Sequence(*items),
                    0 <= i <= items.len(),
                    forall|j: int| 0 <= j < i ==> !has_null(#[trigger] items@[j]),
                decreases items.len() - i,
            {
                proof {
                    lemma_items_below(*v);
                    assert(decreases_to!(*v => v->Sequence_0@[i as int]));
                }
                if value_has_null(&items[i]) {
                    assert(has_null(items@[i as int]));
                    return true;
                }
                i = i + 1;
            }
            proof { lemma_items_below(*v); }
            false
        },
        ConfValue::Mapping(entries) => {
            let mut i: usize = 0;
            while i < entries.len()
                invariant
                    *v == ConfValue::Mapping(*entries),
                    0 <= i <= entries.len(),
                    forall|j: int| 0 <= j < i ==> !has_null(#[trigger] entries@[j].1),
                decreases entries.len() - i,
            {
                proof {
                    lemma_entries_below(*v);
                    assert(decreases_to!(*v => v->Mapping_0@[i as int].1));
                }
                if value_has_null(&entries[i].1) {
                    assert(has_null(entries@[i as int].1));
                    return true;
                }
                i = i + 1;
            }
            proof { lemma_entries_below(*v); }
            false
        },
        _ => false,
    }
}

} // verus!
