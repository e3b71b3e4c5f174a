//! JSON-like field values and the ordered-key field mapping carried by a
//! canonical event.

use vstd::prelude::*;

use crate::assoc::{
    assoc_get, assoc_insert, find_key, lemma_assoc_insert, lemma_find_key_absent,
    lemma_find_key_is_first, unique_keys,
};

verus! {

/// Abstract form of a field value, used in specifications.
pub enum JsonVal {
    Int(i64),
    UInt(u64),
    Bool(bool),
    Str(Seq<char>),
}

/// A JSON-like value stored under a field key: numbers stay numeric,
/// booleans stay boolean, everything else is carried as text.
#[derive(Debug, Clone)]
pub enum FieldValue {
    Int(i64),
    UInt(u64),
    Bool(bool),
    Str(String),
}

impl View for FieldValue {
    type V = JsonVal;

    open spec fn view(&self) -> JsonVal {
        match self {
            FieldValue::Int(v) => JsonVal::Int(*v),
            FieldValue::UInt(v) => JsonVal::UInt(*v),
            FieldValue::Bool(v) => JsonVal::Bool(*v),
            FieldValue::Str(s) => JsonVal::Str(s@),
        }
    }
}

impl PartialEq for FieldValue {
    fn eq(&self, other: &FieldValue) -> (r: bool) {
        match (self, other) {
            (FieldValue::Int(a), FieldValue::Int(b)) => *a == *b,
            (FieldValue::UInt(a), FieldValue::UInt(b)) => *a == *b,
            (FieldValue::Bool(a), FieldValue::Bool(b)) => *a == *b,
            (FieldValue::Str(a), FieldValue::Str(b)) => *a == *b,
            _ => false,
        }
    }
}

impl vstd::std_specs::cmp::PartialEqSpecImpl for FieldValue {
    open spec fn obeys_eq_spec() -> bool {
        true
    }

    open spec fn eq_spec(&self, other: &FieldValue) -> bool {
        self@ == other@
    }
}

/// An ordered-key mapping from field names to JSON-like values.
///
/// Keys are unique.  A key keeps the position of its first insertion;
/// re-inserting it replaces the value in place (last-write-wins), a new key
/// is appended at the end.
#[derive(Debug, Clone)]
pub struct FieldMap {
    pairs: Vec<(String, FieldValue)>,
}

impl View for FieldMap {
    type V = Seq<(Seq<char>, JsonVal)>;

    closed spec fn view(&self) -> Seq<(Seq<char>, JsonVal)> {
        self.pairs@.map_values(|p: (String, FieldValue)| (p.0@, p.1@))
    }
}

impl FieldMap {
    /// Every key occurs at most once.
    pub open spec fn wf(&self) -> bool {
        unique_keys(self@)
    }

    /// An empty mapping.
    pub fn new() -> (r: FieldMap)
        ensures
            r@ == Seq::<(Seq<char>, JsonVal)>::empty(),
            r.wf(),
    {
        let r = FieldMap { pairs: Vec::new() };
        proof {
            assert(r@ =~= Seq::<(Seq<char>, JsonVal)>::empty());
        }
        r
    }

    /// The number of keys.
    pub fn len(&self) -> (n: usize)
        ensures
            n == self@.len(),
    {
        self.pairs.len()
    }

    /// Index of the pair whose key is `key`, if any.
    fn find_index(&self, key: &String) -> (r: Option<usize>)
        ensures
            match r {
                Some(i) => find_key(self@, key@) == i as int && i < self@.len(),
                None => find_key(self@, key@) == -1,
            },
    {
        let n = self.pairs.len();
        for i in 0..n
            invariant
                n == self.pairs.len(),
                forall|j: int| 0 <= j < i ==> self@[j].0 != key@,
        {
            if self.pairs[i].0 == *key {
                proof {
                    lemma_find_key_is_first(self@, key@, i as int);
                }
                return Some(i);
            }
        }
        proof {
            lemma_find_key_absent(self@, key@);
        }
        None
    }

    /// Stores `value` under `key`, last-write-wins.
    pub fn insert(&mut self, key: String, value: FieldValue)
        requires
            old(self).wf(),
        ensures
            final(self).wf(),
            final(self)@ == assoc_insert(old(self)@, key@, value@),
    {
        proof {
            lemma_assoc_insert(self@, key@, value@);
        }
        match self.find_index(&key) {
            Some(i) => {
                self.pairs[i] = (key, value);
                proof {
                    assert(self@ =~= assoc_insert(old(self)@, key@, value@));
                }
            },
            None => {
                self.pairs.push((key, value));
                proof {
                    assert(self@ =~= assoc_insert(old(self)@, key@, value@));
                }
            },
        }
    }

    /// The pairs in order, for callers that serialise or walk the mapping.
    pub fn entries(&self) -> (r: &Vec<(String, FieldValue)>)
        ensures
            r@.len() == self@.len(),
            forall|i: int| 0 <= i < r@.len() ==> self@[i] == (r@[i].0@, r@[i].1@),
    {
        &self.pairs
    }

    /// The value stored under `key`, if any.
    pub fn get(&self, key: &str) -> (r: Option<&FieldValue>)
        ensures
            match r {
                Some(v) => assoc_get(self@, key@) == Some(v@),
                None => assoc_get(self@, key@) is None,
            },
    {
        let k = key.to_owned();
        match self.find_index(&k) {
            Some(i) => Some(&self.pairs[i].1),
            None => None,
        }
    }
}

} // verus!
