//! Canonical events and the extraction of a message and field mapping from
//! the typed attributes of a structured event.

use vstd::prelude::*;

use crate::assoc::{assoc_insert, lemma_assoc_insert, unique_keys};
use crate::fields::{FieldMap, FieldValue, JsonVal};
use crate::level::Level;

verus! {

/// Abstract form of an attribute value, used in specifications.
pub enum AttrVal {
    Int(i64),
    UInt(u64),
    Bool(bool),
    Str(Seq<char>),
    Error(Seq<char>),
    Debug(Seq<char>),
}

/// A typed attribute value as declared at an instrumentation call site.
///
/// Errors and debug-formatted values arrive as their textual representation.
#[derive(Debug, Clone)]
pub enum AttrValue {
    Int(i64),
    UInt(u64),
    Bool(bool),
    Str(String),
    Error(String),
    Debug(String),
}

impl View for AttrValue {
    type V = AttrVal;

    open spec fn view(&self) -> AttrVal {
        match self {
            AttrValue::Int(v) => AttrVal::Int(*v),
            AttrValue::UInt(v) => AttrVal::UInt(*v),
            AttrValue::Bool(v) => AttrVal::Bool(*v),
            AttrValue::Str(s) => AttrVal::Str(s@),
            AttrValue::Error(s) => AttrVal::Error(s@),
            AttrValue::Debug(s) => AttrVal::Debug(s@),
        }
    }
}

/// A named attribute of a structured event.
#[derive(Debug, Clone)]
pub struct Attr {
    pub name: String,
    pub value: AttrValue,
}

impl View for Attr {
    type V = (Seq<char>, AttrVal);

    open spec fn view(&self) -> (Seq<char>, AttrVal) {
        (self.name@, self.value@)
    }
}

/// The canonical shape every structured event is normalised into before it
/// is handed to a sink.
#[derive(Debug)]
pub struct Event {
    pub level: Level,
    pub target: String,
    pub name: String,
    pub message: String,
    pub fields: FieldMap,
}

/// Whether an attribute value is string-like.  Only a string-like value
/// under the reserved name can become the event's message.
pub open spec fn spec_is_text(v: AttrVal) -> bool {
    match v {
        AttrVal::Str(_) => true,
        AttrVal::Error(_) => true,
        AttrVal::Debug(_) => true,
        _ => false,
    }
}

/// The text carried by a string-like attribute value.
pub open spec fn spec_text(v: AttrVal) -> Seq<char> {
    match v {
        AttrVal::Str(s) => s,
        AttrVal::Error(s) => s,
        AttrVal::Debug(s) => s,
        _ => Seq::empty(),
    }
}

/// The JSON-like value an attribute value is converted into when it is
/// stored in the field mapping.
pub open spec fn spec_json_of(v: AttrVal) -> JsonVal {
    match v {
        AttrVal::Int(i) => JsonVal::Int(i),
        AttrVal::UInt(u) => JsonVal::UInt(u),
        AttrVal::Bool(b) => JsonVal::Bool(b),
        AttrVal::Str(s) => JsonVal::Str(s),
        AttrVal::Error(s) => JsonVal::Str(s),
        AttrVal::Debug(s) => JsonVal::Str(s),
    }
}

/// The reserved attribute name that sets the event's message.
pub open spec fn message_key() -> Seq<char> {
    "message"@
}

/// The message and field mapping extracted from `attrs`, processed in
/// declaration order.  A string-like value under the reserved name
/// overwrites the message; every other attribute is stored in the mapping,
/// last-write-wins.
pub open spec fn spec_extract(attrs: Seq<(Seq<char>, AttrVal)>) -> (Seq<char>, Seq<
    (Seq<char>, JsonVal),
>)
    decreases attrs.len(),
{
    if attrs.len() == 0 {
        (Seq::empty(), Seq::empty())
    } else {
        let prev = spec_extract(attrs.drop_last());
        let a = attrs.last();
        if a.0 == message_key() && spec_is_text(a.1) {
            (spec_text(a.1), prev.1)
        } else {
            (prev.0, assoc_insert(prev.1, a.0, spec_json_of(a.1)))
        }
    }
}

/// The views of a sequence of attributes.
pub open spec fn attr_views(attrs: Seq<Attr>) -> Seq<(Seq<char>, AttrVal)> {
    attrs.map_values(|a: Attr| a@)
}

/// Extraction never produces a duplicated field key.
pub proof fn lemma_spec_extract_wf(attrs: Seq<(Seq<char>, AttrVal)>)
    ensures
        unique_keys(spec_extract(attrs).1),
    decreases attrs.len(),
{
    if attrs.len() == 0 {
        assert(unique_keys(Seq::<(Seq<char>, JsonVal)>::empty()));
    } else {
        lemma_spec_extract_wf(attrs.drop_last());
        let prev = spec_extract(attrs.drop_last());
        let a = attrs.last();
        if !(a.0 == message_key() && spec_is_text(a.1)) {
            lemma_assoc_insert(prev.1, a.0, spec_json_of(a.1));
        }
    }
}

/// Runs the field extractor over `attrs`, yielding the event's message and
/// its field mapping.
pub fn extract_fields(attrs: &Vec<Attr>) -> (r: (String, FieldMap))
    ensures
        (r.0@, r.1@) == spec_extract(attr_views(attrs@)),
        r.1.wf(),
{
    let mut message = String::new();
    let mut fields = FieldMap::new();
    let msg_key = "message".to_owned();
    let n = attrs.len();
    proof {
        assert(attr_views(attrs@.subrange(0, 0)) =~= Seq::<(Seq<char>, AttrVal)>::empty());
    }
    for i in 0..n
        invariant
            n == attrs.len(),
            msg_key@ == message_key(),
            fields.wf(),
            (message@, fields@) == spec_extract(attr_views(attrs@.subrange(0, i as int))),
    {
        let ghost prefix = attr_views(attrs@.subrange(0, i as int));
        let a = &attrs[i];
        let is_text = match &a.value {
            AttrValue::Str(_) => true,
            AttrValue::Error(_) => true,
            AttrValue::Debug(_) => true,
            _ => false,
        };
        if is_text && a.name == msg_key {
            message = match &a.value {
                AttrValue::Str(s) => s.clone(),
                AttrValue::Error(s) => s.clone(),
                AttrValue::Debug(s) => s.clone(),
                _ => String::new(),
            };
        } else {
            let v = match &a.value {
                AttrValue::Int(x) => FieldValue::Int(*x),
                AttrValue::UInt(x) => FieldValue::UInt(*x),
                AttrValue::Bool(x) => FieldValue::Bool(*x),
                AttrValue::Str(s) => FieldValue::Str(s.clone()),
                AttrValue::Error(s) => FieldValue::Str(s.clone()),
                AttrValue::Debug(s) => FieldValue::Str(s.clone()),
            };
            fields.insert(a.name.clone(), v);
        }
        proof {
            let next = attr_views(attrs@.subrange(0, i + 1));
            assert(next.drop_last() =~= prefix);
            assert(next.last() == attrs@[i as int]@);
        }
    }
    proof {
        assert(attrs@.subrange(0, n as int) =~= attrs@);
    }
    (message, fields)
}

} // verus!
