//! A JSON document as plain values, and reading typed fields out of objects.
//!
//! Turning text into a document and back is the job of a JSON library; this
//! module holds what the client decides about documents: which member a key
//! names, and which values a field of a given type accepts.

use vstd::prelude::*;

verus! {

/// A JSON value.
#[derive(Debug, PartialEq, Eq)]
pub enum JsonValue {
    Null,
    Bool(bool),
    /// A number that is a non-negative integer of at most 64 bits.
    Number(u64),
    /// Any other number, kept as its text.
    OtherNumber(String),
    Str(String),
    Array(Vec<JsonValue>),
    /// An object's members, in document order.
    Object(Vec<JsonMember>),
}

/// A key and its value inside an object.
#[derive(Debug, PartialEq, Eq)]
pub struct JsonMember {
    pub key: String,
    pub value: JsonValue,
}

/// An object's members as (key text, value) pairs.
pub open spec fn entries(ms: Seq<JsonMember>) -> Seq<(Seq<char>, JsonValue)> {
    ms.map_values(|m: JsonMember| (m.key@, m.value))
}

/// The value of the first entry whose key is `key`.
pub open spec fn find_entry(es: Seq<(Seq<char>, JsonValue)>, key: Seq<char>) -> Option<JsonValue>
    decreases es.len(),
{
    if es.len() == 0 {
        None
    } else if es[0].0 == key {
        Some(es[0].1)
    } else {
        find_entry(es.drop_first(), key)
    }
}

/// Looking a key up in two joined entry lists looks in the first list, then
/// in the second.
pub broadcast proof fn lemma_find_entry_concat(
    a: Seq<(Seq<char>, JsonValue)>,
    b: Seq<(Seq<char>, JsonValue)>,
    key: Seq<char>,
)
    ensures
        #[trigger] find_entry(a + b, key) == match find_entry(a, key) {
            Some(v) => Some(v),
            None => find_entry(b, key),
        },
    decreases a.len(),
{
    if a.len() == 0 {
        assert(a + b =~= b);
    } else {
        assert((a + b).drop_first() =~= a.drop_first() + b);
        lemma_find_entry_concat(a.drop_first(), b, key);
    }
}

/// Looking a key up in a single entry.
pub broadcast proof fn lemma_find_entry_single(k: Seq<char>, v: JsonValue, key: Seq<char>)
    ensures
        #[trigger] find_entry(seq![(k, v)], key) == if k == key {
            Some(v)
        } else {
            None
        },
{
    let s = seq![(k, v)];
    assert(s[0] == (k, v));
    if k != key {
        assert(s.drop_first().len() == 0);
        assert(find_entry(s.drop_first(), key) is None);
    }
}

/// An entry list in which no key is found holds no entry with that key.
pub proof fn lemma_find_entry_none(es: Seq<(Seq<char>, JsonValue)>, key: Seq<char>)
    requires
        find_entry(es, key) is None,
    ensures
        forall|i: int| 0 <= i < es.len() ==> #[trigger] es[i].0 != key,
    decreases es.len(),
{
    if es.len() > 0 {
        lemma_find_entry_none(es.drop_first(), key);
        assert forall|i: int| 0 <= i < es.len() implies #[trigger] es[i].0 != key by {
            if i > 0 {
                assert(es[i] == es.drop_first()[i - 1]);
            }
        }
    }
}

/// The value of the first member of `ms` whose key is `key`.
pub fn get_member<'a>(ms: &'a Vec<JsonMember>, key: &str) -> (r: Option<&'a JsonValue>)
    ensures
        match r {
            Some(v) => find_entry(entries(ms@), key@) == Some(*v),
            None => find_entry(entries(ms@), key@) is None,
        },
{
    let k = key.to_owned();
    let ghost es = entries(ms@);
    let mut i: usize = 0;
    assert(es.skip(0) =~= es);
    while i < ms.len()
        invariant
            0 <= i <= ms@.len(),
            k@ == key@,
            es == entries(ms@),
            find_entry(es, key@) == find_entry(es.skip(i as int), key@),
        decreases ms@.len() - i,
    {
        if ms[i].key == k {
            assert(es.skip(i as int)[0] == es[i as int]);
            return Some(&ms[i].value);
        }
        assert(es.skip(i as int).drop_first() =~= es.skip(i as int + 1));
        i += 1;
    }
    assert(es.skip(i as int).len() == 0);
    None
}

/// What an optional field of type `u32` reads from the value found for it:
/// absent or null is `None`, a number that fits is that number, anything
/// else is a failure.
pub open spec fn field_u32(v: Option<JsonValue>) -> Result<Option<u32>, ()> {
    match v {
        None => Ok(None),
        Some(JsonValue::Null) => Ok(None),
        Some(JsonValue::Number(n)) => if n <= u32::MAX {
            Ok(Some(n as u32))
        } else {
            Err(())
        },
        Some(_) => Err(()),
    }
}

/// What an optional string field reads from the value found for it: absent or
/// null is `None`, a string is that string, anything else is a failure.
pub open spec fn field_text(v: Option<JsonValue>) -> Result<Option<String>, ()> {
    match v {
        None => Ok(None),
        Some(JsonValue::Null) => Ok(None),
        Some(JsonValue::Str(s)) => Ok(Some(s)),
        Some(_) => Err(()),
    }
}

/// Reads the optional `u32` field `key` of an object.
pub fn read_u32(ms: &Vec<JsonMember>, key: &str) -> (r: Result<Option<u32>, ()>)
    ensures
        r == field_u32(find_entry(entries(ms@), key@)),
{
    match get_member(ms, key) {
        None => Ok(None),
        Some(JsonValue::Null) => Ok(None),
        Some(JsonValue::Number(n)) => {
            if *n <= 0xffff_ffffu64 {
                Ok(Some(*n as u32))
            } else {
                Err(())
            }
        },
        Some(_) => Err(()),
    }
}

/// Reads the optional string field `key` of an object.
pub fn read_text(ms: &Vec<JsonMember>, key: &str) -> (r: Result<Option<String>, ()>)
    ensures
        r == field_text(find_entry(entries(ms@), key@)),
{
    match get_member(ms, key) {
        None => Ok(None),
        Some(JsonValue::Null) => Ok(None),
        Some(JsonValue::Str(s)) => Ok(Some(s.clone())),
        Some(_) => Err(()),
    }
}

/// A member with the given key and value.
pub fn member(key: &str, value: JsonValue) -> (r: JsonMember)
    ensures
        r.key@ == key@,
        r.value == value,
{
    JsonMember { key: key.to_owned(), value }
}

} // verus!
