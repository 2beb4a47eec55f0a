use vstd::prelude::*;
use crate::auth::same_chars;

verus! {

/// A JSON document as the library reads it: what an upstream answered, after
/// decoding. Numbers keep their text, since the library only carries them.
#[derive(Debug)]
pub enum JsonValue {
    Null,
    Bool(bool),
    Number(String),
    Str(String),
    Array(Vec<JsonValue>),
    Object(Vec<(String, JsonValue)>),
}

/// The value under `key` in a list of object entries: the first entry with
/// that key.
pub open spec fn entries_get(entries: Seq<(String, JsonValue)>, key: Seq<char>) -> Option<JsonValue>
    decreases entries.len(),
{
    if entries.len() == 0 {
        None
    } else if entries[0].0@ == key {
        Some(entries[0].1)
    } else {
        entries_get(entries.drop_first(), key)
    }
}

/// The value under `key` when `v` is an object.
pub open spec fn spec_get(v: JsonValue, key: Seq<char>) -> Option<JsonValue> {
    match v {
        JsonValue::Object(entries) => entries_get(entries@, key),
        _ => None,
    }
}

/// The characters of `v` when it is a string.
pub open spec fn spec_str(v: JsonValue) -> Option<Seq<char>> {
    match v {
        JsonValue::Str(s) => Some(s@),
        _ => None,
    }
}

/// The characters under `key` when `v` is an object holding a string there.
pub open spec fn spec_get_str(v: JsonValue, key: Seq<char>) -> Option<Seq<char>> {
    match spec_get(v, key) {
        Some(f) => spec_str(f),
        None => None,
    }
}

/// The characters of an optional text.
pub open spec fn opt_view(o: Option<String>) -> Option<Seq<char>> {
    match o {
        Some(s) => Some(s@),
        None => None,
    }
}

/// The first element of `v` when it is a non-empty array.
pub open spec fn spec_first(v: JsonValue) -> Option<JsonValue> {
    match v {
        JsonValue::Array(items) => if items@.len() > 0 { Some(items@[0]) } else { None },
        _ => None,
    }
}

/// The elements of `v` when it is an array.
pub open spec fn spec_items(v: JsonValue) -> Option<Seq<JsonValue>> {
    match v {
        JsonValue::Array(items) => Some(items@),
        _ => None,
    }
}

proof fn lemma_entries_get_found(entries: Seq<(String, JsonValue)>, key: Seq<char>, i: int)
    requires
        0 <= i < entries.len(),
        entries[i].0@ == key,
        forall|j: int| 0 <= j < i ==> entries[j].0@ != key,
    ensures
        entries_get(entries, key) == Some(entries[i].1),
    decreases i,
{
    if i > 0 {
        lemma_entries_get_found(entries.drop_first(), key, i - 1);
    }
}

proof fn lemma_entries_get_none(entries: Seq<(String, JsonValue)>, key: Seq<char>)
    requires
        forall|j: int| 0 <= j < entries.len() ==> entries[j].0@ != key,
    ensures
        entries_get(entries, key).is_none(),
    decreases entries.len(),
{
    if entries.len() > 0 {
        lemma_entries_get_none(entries.drop_first(), key);
    }
}

impl JsonValue {
    /// The value under `key`, when this is an object that holds one.
    pub fn get(&self, key: &str) -> (r: Option<&JsonValue>)
        ensures
            match r {
                Some(v) => spec_get(*self, key@) == Some(*v),
                None => spec_get(*self, key@).is_none(),
            },
    {
        match self {
            JsonValue::Object(entries) => {
                let mut i: usize = 0;
                while i < entries.len()
                    invariant
                        *self == JsonValue::Object(*entries),
                        i <= entries@.len(),
                        forall|j: int| 0 <= j < i ==> entries@[j].0@ != key@,
                    decreases entries@.len() - i,
                {
                    if same_chars(entries[i].0.as_str(), key) {
                        proof {
                            lemma_entries_get_found(entries@, key@, i as int);
                        }
                        return Some(&entries[i].1);
                    }
                    i = i + 1;
                }
                proof {
                    lemma_entries_get_none(entries@, key@);
                }
                None
            },
            _ => None,
        }
    }

    /// A copy of the text under `key`, when this is an object holding a
    /// string there.
    pub fn get_string(&self, key: &str) -> (r: Option<String>)
        ensures
            opt_view(r) == spec_get_str(*self, key@),
    {
        match self.get(key) {
            Some(v) => match v.as_str() {
                Some(s) => Some(s.clone()),
                None => None,
            },
            None => None,
        }
    }

    /// The text of this value, when it is a string.
    pub fn as_str(&self) -> (r: Option<&String>)
        ensures
            match r {
                Some(s) => spec_str(*self) == Some(s@),
                None => spec_str(*self).is_none(),
            },
    {
        match self {
            JsonValue::Str(s) => Some(s),
            _ => None,
        }
    }

    /// The elements of this value, when it is an array.
    pub fn as_array(&self) -> (r: Option<&Vec<JsonValue>>)
        ensures
            match r {
                Some(a) => spec_items(*self) == Some(a@),
                None => spec_items(*self).is_none(),
            },
    {
        match self {
            JsonValue::Array(items) => Some(items),
            _ => None,
        }
    }
}

} // verus!
