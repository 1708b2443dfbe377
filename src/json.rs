//! A parsed JSON document, as the decoder reads it.

use vstd::prelude::*;

verus! {

/// A JSON value. Objects keep their entries in document order, duplicates
/// included.
#[derive(Debug, PartialEq, Eq)]
pub enum JsonValue {
    Null,
    Bool(bool),
    /// A whole number of zero or more.
    UInt(u64),
    /// A whole number below zero.
    NegInt(i64),
    /// A number with a fraction or an exponent; no type position reads its value.
    OtherNumber,
    Str(String),
    Array(Vec<JsonValue>),
    Object(Vec<(String, JsonValue)>),
}

/// The value of the last entry of `entries` under `key`.
pub open spec fn lookup(entries: Seq<(String, JsonValue)>, key: Seq<char>) -> Option<JsonValue>
    decreases entries.len(),
{
    if entries.len() == 0 {
        None
    } else if entries.last().0@ == key {
        Some(entries.last().1)
    } else {
        lookup(entries.drop_last(), key)
    }
}

/// A value found under a key of an object is smaller than the object.
pub proof fn lemma_lookup_decreases(entries: Vec<(String, JsonValue)>, key: Seq<char>)
    ensures
        lookup(entries@, key) matches Some(v) ==> decreases_to!(JsonValue::Object(entries) => v),
{
    let s = entries@;
    let j = JsonValue::Object(entries);
    assert(decreases_to!(j => j->Object_0));
    assert(decreases_to!(entries => entries@));
    lemma_lookup_index(s, key);
    if lookup(s, key) is Some {
        let k = choose|k: int| 0 <= k < s.len() && lookup(s, key) == Some(s[k].1);
        assert(decreases_to!(s => s[k]));
        assert(decreases_to!(s[k] => s[k].1));
    }
}

proof fn lemma_lookup_index(s: Seq<(String, JsonValue)>, key: Seq<char>)
    ensures
        lookup(s, key) is Some ==> exists|k: int| 0 <= k < s.len() && lookup(s, key) == Some(s[k].1),
    decreases s.len(),
{
    if s.len() > 0 && s.last().0@ != key {
        lemma_lookup_index(s.drop_last(), key);
        if lookup(s, key) is Some {
            let k = choose|k: int| 0 <= k < s.drop_last().len() && lookup(s.drop_last(), key) == Some(s.drop_last()[k].1);
            assert(s[k] == s.drop_last()[k]);
        }
    } else if s.len() > 0 {
        assert(lookup(s, key) == Some(s[s.len() - 1].1));
    }
}

/// Finds the value of the last entry of `entries` under `key`.
pub fn get_entry<'a>(entries: &'a Vec<(String, JsonValue)>, key: &str) -> (r: Option<&'a JsonValue>)
    ensures
        match r {
            Some(v) => lookup(entries@, key@) == Some(*v),
            None => lookup(entries@, key@) is None,
        },
{
    let mut i: usize = entries.len();
    assert(entries@.subrange(0, i as int) =~= entries@);
    while i > 0
        invariant
            i <= entries@.len(),
            lookup(entries@, key@) == lookup(entries@.subrange(0, i as int), key@),
        decreases i,
    {
        let ghost s = entries@.subrange(0, i as int);
        assert(s.drop_last() =~= entries@.subrange(0, i - 1));
        let entry = &entries[i - 1];
        let k: &str = entry.0.as_str();
        if crate::text::same_text(k, key) {
            return Some(&entry.1);
        }
        i = i - 1;
    }
    assert(entries@.subrange(0, 0) =~= Seq::<(String, JsonValue)>::empty());
    None
}

} // verus!
