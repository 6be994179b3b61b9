//! JSON documents.
//!
//! Payloads travel through the library as `serde_json::Value`. That type is
//! opaque to the verifier, so every statement about a document is made over
//! [`Json`], a mathematical tree, and [`json_view`], which names the tree that
//! a `Value` holds. Reading and building documents, and turning them into text
//! and back, is `serde_json`'s work: the functions that call it are trusted,
//! and each says in its doc comment what is taken on trust.
//!
//! `serde_json` is built with its feature `preserve_order`: an object keeps
//! its members in the order in which they were inserted, and writes them in
//! that order.
use vstd::prelude::*;

verus! {

/// A JSON number: an integer, or a binary floating point number given by its
/// IEEE 754 bit pattern.
pub enum JsonNumber {
    Integer(int),
    Float(u64),
}

/// A JSON document as a mathematical tree. The entries of an object keep the
/// order in which they were inserted.
pub enum Json {
    Null,
    Bool(bool),
    Number(JsonNumber),
    String(Seq<char>),
    Array(Seq<Json>),
    Object(Seq<(Seq<char>, Json)>),
}

/// The value stored under `key` in a list of object entries: that of the first
/// entry with this key.
pub open spec fn lookup(entries: Seq<(Seq<char>, Json)>, key: Seq<char>) -> Option<Json>
    decreases entries.len(),
{
    if entries.len() == 0 {
        None
    } else if entries[0].0 == key {
        Some(entries[0].1)
    } else {
        lookup(entries.drop_first(), key)
    }
}

/// No two entries share a key.
pub open spec fn distinct_keys(entries: Seq<(Seq<char>, Json)>) -> bool {
    forall|i: int, j: int|
        0 <= i < j < entries.len() ==> (#[trigger] entries[i]).0 != (#[trigger] entries[j]).0
}

/// An entry whose key no earlier entry has is the one that a lookup of its
/// key finds.
pub proof fn lemma_lookup_finds(entries: Seq<(Seq<char>, Json)>, at: int)
    requires
        0 <= at < entries.len(),
        forall|j: int| 0 <= j < at ==> (#[trigger] entries[j]).0 != entries[at].0,
    ensures
        lookup(entries, entries[at].0) == Some(entries[at].1),
    decreases entries.len(),
{
    if at > 0 {
        let rest = entries.drop_first();
        assert(entries[0].0 != entries[at].0);
        assert(rest[at - 1] == entries[at]);
        assert forall|j: int| 0 <= j < at - 1 implies (#[trigger] rest[j]).0 != rest[at - 1].0 by {
            assert(rest[j] == entries[j + 1]);
        }
        lemma_lookup_finds(rest, at - 1);
    }
}

/// A key that no entry has is not found.
pub proof fn lemma_lookup_misses(entries: Seq<(Seq<char>, Json)>, key: Seq<char>)
    requires
        forall|j: int| 0 <= j < entries.len() ==> (#[trigger] entries[j]).0 != key,
    ensures
        lookup(entries, key) is None,
    decreases entries.len(),
{
    if entries.len() > 0 {
        let rest = entries.drop_first();
        assert(entries[0].0 != key);
        assert forall|j: int| 0 <= j < rest.len() implies (#[trigger] rest[j]).0 != key by {
            assert(rest[j] == entries[j + 1]);
        }
        lemma_lookup_misses(rest, key);
    }
}

impl Json {
    /// The member `key` of an object; `None` for a missing member and for
    /// every document that is not an object.
    pub open spec fn get(self, key: Seq<char>) -> Option<Json> {
        match self {
            Json::Object(entries) => lookup(entries, key),
            _ => None,
        }
    }

    /// The characters of a string document.
    pub open spec fn as_str(self) -> Option<Seq<char>> {
        match self {
            Json::String(s) => Some(s),
            _ => None,
        }
    }

    /// The value of an integer document that fits `u64`.
    pub open spec fn as_u64(self) -> Option<u64> {
        match self {
            Json::Number(JsonNumber::Integer(i)) => if 0 <= i <= u64::MAX {
                Some(i as u64)
            } else {
                None
            },
            _ => None,
        }
    }

    /// The value of an integer document that fits `i64`.
    pub open spec fn as_i64(self) -> Option<i64> {
        match self {
            Json::Number(JsonNumber::Integer(i)) => if i64::MIN <= i <= i64::MAX {
                Some(i as i64)
            } else {
                None
            },
            _ => None,
        }
    }
}

/// The entries of an object under construction, as the tree sees them.
pub open spec fn entries_view(entries: Seq<(String, serde_json::Value)>) -> Seq<(Seq<char>, Json)> {
    Seq::new(entries.len(), |i: int| (entries[i].0@, json_view(entries[i].1)))
}

#[verifier::external_type_specification]
#[verifier::external_body]
pub struct ExValue(serde_json::Value);

/// The tree that a `serde_json::Value` holds.
pub uninterp spec fn json_view(value: serde_json::Value) -> Json;

/// The document that `serde_json::from_str` reads from a text, if it accepts
/// the text.
pub uninterp spec fn json_parse(text: Seq<char>) -> Option<Json>;

/// The compact text that `serde_json::to_string` writes for a document.
pub uninterp spec fn json_text(document: Json) -> Seq<char>;

/// The indented text that `serde_json::to_string_pretty` writes for a
/// document.
pub uninterp spec fn json_pretty_text(document: Json) -> Seq<char>;

/// `Clone` for `serde_json::Value`: the copy holds the same tree.
pub assume_specification[ <serde_json::Value as Clone>::clone ](
    value: &serde_json::Value,
) -> (copy: serde_json::Value)
    ensures
        json_view(copy) == json_view(*value),
;

/// `serde_json::from_str` at type `Value`. Trusted: whether a text is accepted,
/// and the tree read from it, depend on the text alone.
#[verifier::external_body]
pub(crate) fn parse(text: &str) -> (parsed: Option<serde_json::Value>)
    ensures
        match parsed {
            Some(value) => json_parse(text@) == Some(json_view(value)),
            None => json_parse(text@) is None,
        },
{
    serde_json::from_str::<serde_json::Value>(text).ok()
}

/// `serde_json::to_string` on a `Value`. Trusted: the text depends on the tree
/// alone, and the call succeeds, because writing a `Value` into memory has no
/// failing step (its keys are strings, its numbers are finite).
#[verifier::external_body]
pub(crate) fn to_text(value: &serde_json::Value) -> (written: Option<String>)
    ensures
        written is Some,
        written->Some_0@ == json_text(json_view(*value)),
{
    serde_json::to_string(value).ok()
}

/// `serde_json::to_string_pretty` on a `Value`. Trusted as [`to_text`] is.
#[verifier::external_body]
pub(crate) fn to_pretty_text(value: &serde_json::Value) -> (written: Option<String>)
    ensures
        written is Some,
        written->Some_0@ == json_pretty_text(json_view(*value)),
{
    serde_json::to_string_pretty(value).ok()
}

/// `Value::get` with a string key. Trusted: an object answers with the entry
/// stored under the key, every other document with `None`.
#[verifier::external_body]
pub(crate) fn member<'a>(value: &'a serde_json::Value, key: &str) -> (found: Option<
    &'a serde_json::Value,
>)
    ensures
        match found {
            Some(inner) => json_view(*value).get(key@) == Some(json_view(*inner)),
            None => json_view(*value).get(key@) is None,
        },
{
    value.get(key)
}

/// `Value::as_str`. Trusted: a string document answers with its characters,
/// every other document with `None`.
#[verifier::external_body]
pub(crate) fn as_str<'a>(value: &'a serde_json::Value) -> (text: Option<&'a str>)
    ensures
        match text {
            Some(s) => json_view(*value).as_str() == Some(s@),
            None => json_view(*value).as_str() is None,
        },
{
    value.as_str()
}

/// `Value::as_u64`. Trusted: an integer from 0 to `u64::MAX` answers with its
/// value, every other document with `None`.
#[verifier::external_body]
pub(crate) fn as_u64(value: &serde_json::Value) -> (number: Option<u64>)
    ensures
        number == json_view(*value).as_u64(),
{
    value.as_u64()
}

/// `Value::as_i64`. Trusted: an integer from `i64::MIN` to `i64::MAX` answers
/// with its value, every other document with `None`.
#[verifier::external_body]
pub(crate) fn as_i64(value: &serde_json::Value) -> (number: Option<i64>)
    ensures
        number == json_view(*value).as_i64(),
{
    value.as_i64()
}

/// `Value::is_null`.
#[verifier::external_body]
pub(crate) fn is_null(value: &serde_json::Value) -> (null: bool)
    ensures
        null == (json_view(*value) == Json::Null),
{
    value.is_null()
}

/// The variant `Value::Null`.
#[verifier::external_body]
pub(crate) fn null() -> (value: serde_json::Value)
    ensures
        json_view(value) == Json::Null,
{
    serde_json::Value::Null
}

/// `From<String>` for `Value`: a string document with the same characters.
#[verifier::external_body]
pub(crate) fn from_string(text: String) -> (value: serde_json::Value)
    ensures
        json_view(value) == Json::String(text@),
{
    serde_json::Value::from(text)
}

/// `From<u64>` for `Value`: the integer document of that value.
#[verifier::external_body]
pub(crate) fn from_u64(number: u64) -> (value: serde_json::Value)
    ensures
        json_view(value) == Json::Number(JsonNumber::Integer(number as int)),
{
    serde_json::Value::from(number)
}

/// `From<i64>` for `Value`: the integer document of that value.
#[verifier::external_body]
pub(crate) fn from_i64(number: i64) -> (value: serde_json::Value)
    ensures
        json_view(value) == Json::Number(JsonNumber::Integer(number as int)),
{
    serde_json::Value::from(number)
}

/// `FromIterator` for `serde_json::Map`, wrapped in `Value::Object`. Trusted:
/// entries with pairwise distinct keys are stored in the order given.
#[verifier::external_body]
pub(crate) fn object(entries: Vec<(String, serde_json::Value)>) -> (value: serde_json::Value)
    requires
        distinct_keys(entries_view(entries@)),
    ensures
        json_view(value) == Json::Object(entries_view(entries@)),
{
    serde_json::Value::Object(entries.into_iter().collect())
}

} // verus!
