//! The document model that the decoders read.
//!
//! Parsing JSON text is left to `serde_json`. What it produces is copied, node
//! for node, into [`Json`], a tree of plain values that the decoders can be
//! verified against for every document.

use vstd::prelude::*;
use vstd::string::StringExecFns;

verus! {

/// A number of a document: its two integer readings, and the decimal text
/// that `serde_json` prints for it. Fractions are carried as that text only.
#[derive(Clone, Debug, PartialEq, Eq)]
pub struct JsonNumber {
    /// The value, where it is an integer from zero up to `u64::MAX`.
    pub unsigned: Option<u64>,
    /// The value, where it is an integer that fits `i64`.
    pub signed: Option<i64>,
    /// The number in decimal notation.
    pub text: String,
}

/// One `"key": value` pair of an object.
#[derive(Debug, PartialEq, Eq)]
pub struct Member {
    pub key: String,
    pub value: Json,
}

/// A JSON document.
#[derive(Debug, PartialEq, Eq)]
pub enum Json {
    Null,
    Bool(bool),
    Number(JsonNumber),
    Text(String),
    List(Vec<Json>),
    Object(Vec<Member>),
}

#[verifier::external_type_specification]
#[verifier::external_body]
pub struct ExValue(serde_json::Value);

#[verifier::external_type_specification]
#[verifier::external_body]
pub struct ExError(serde_json::Error);

/// The tree that a parsed value holds.
pub uninterp spec fn tree_of(value: serde_json::Value) -> Json;

/// The document that a text parses to, if it is well-formed JSON.
pub uninterp spec fn parsed(text: Seq<char>) -> Option<Json>;

/// `serde_json::from_str`, at `serde_json::Value`. The contract claims only
/// that the outcome is a function of the text: a text either always parses,
/// and then to the same tree, or never does.
#[verifier::external_body]
fn parse_value(text: &str) -> (r: Result<serde_json::Value, serde_json::Error>)
    ensures
        match r {
            Ok(value) => parsed(text@) == Some(tree_of(value)),
            Err(_) => parsed(text@) is None,
        },
{
    serde_json::from_str::<serde_json::Value>(text)
}

/// Copies a `serde_json::Value` into a [`Json`], variant by variant; a number
/// becomes what `Number::as_u64`, `Number::as_i64` and `Number::to_string`
/// return of it. The contract claims only that the copy is a function of the
/// value.
#[verifier::external_body]
fn lift_value(value: &serde_json::Value) -> (tree: Json)
    ensures
        tree == tree_of(*value),
{
    match value {
        serde_json::Value::Null => Json::Null,
        serde_json::Value::Bool(b) => Json::Bool(*b),
        serde_json::Value::Number(n) => Json::Number(JsonNumber {
            unsigned: n.as_u64(),
            signed: n.as_i64(),
            text: n.to_string(),
        }),
        serde_json::Value::String(s) => Json::Text(s.clone()),
        serde_json::Value::Array(items) => Json::List(items.iter().map(lift_value).collect()),
        serde_json::Value::Object(map) => Json::Object(
            map.iter().map(|(k, v)| Member { key: k.clone(), value: lift_value(v) }).collect(),
        ),
    }
}

/// `serde_json::Error`'s `to_string`: the parser's description of what was
/// wrong with a text. Nothing is claimed of it.
#[verifier::external_body]
fn error_text(error: &serde_json::Error) -> String {
    error.to_string()
}

/// Parses a text into a document, or reports why it is not one.
pub fn parse_document(text: &str) -> (r: Result<Json, String>)
    ensures
        match r {
            Ok(tree) => parsed(text@) == Some(tree),
            Err(_) => parsed(text@) is None,
        },
{
    match parse_value(text) {
        Ok(value) => Ok(lift_value(&value)),
        Err(error) => Err(error_text(&error)),
    }
}

/// The value of the first member of `members` whose key is `key`.
pub open spec fn member_at(members: Seq<Member>, key: Seq<char>) -> Option<Json>
    decreases members.len(),
{
    if members.len() == 0 {
        None
    } else if members[0].key@ == key {
        Some(members[0].value)
    } else {
        member_at(members.drop_first(), key)
    }
}

/// A member is found exactly where some member has the key, and a key that
/// no member has is not found.
pub proof fn lemma_member_at(members: Seq<Member>, key: Seq<char>)
    ensures
        member_at(members, key) is Some <==> exists|i: int|
            0 <= i < members.len() && (#[trigger] members[i]).key@ == key,
        member_at(members, key) matches Some(value) ==> exists|i: int|
            0 <= i < members.len() && (#[trigger] members[i]).key@ == key && members[i].value
                == value,
    decreases members.len(),
{
    if members.len() == 0 {
    } else if members[0].key@ == key {
        assert(members[0].key@ == key);
    } else {
        let rest = members.drop_first();
        lemma_member_at(rest, key);
        if member_at(rest, key) is Some {
            let i = choose|i: int|
                0 <= i < rest.len() && (#[trigger] rest[i]).key@ == key && rest[i].value
                    == member_at(rest, key)->Some_0;
            assert(members[i + 1] == rest[i]);
        }
        if exists|i: int| 0 <= i < members.len() && (#[trigger] members[i]).key@ == key {
            let i = choose|i: int| 0 <= i < members.len() && (#[trigger] members[i]).key@ == key;
            assert(rest[i - 1] == members[i]);
        }
    }
}

/// A member put in front of an object is found under its own key and hides
/// no member with another key.
pub proof fn lemma_member_in_front(members: Seq<Member>, first: Member, key: Seq<char>)
    ensures
        member_at(seq![first] + members, key) == if first.key@ == key {
            Some(first.value)
        } else {
            member_at(members, key)
        },
{
    let all = seq![first] + members;
    assert(all[0] == first);
    assert(all.drop_first() == members);
}

/// Looks a key up among the members of an object.
pub fn lookup<'a>(members: &'a Vec<Member>, key: &str) -> (r: Option<&'a Json>)
    ensures
        match r {
            Some(value) => member_at(members@, key@) == Some(*value),
            None => member_at(members@, key@) is None,
        },
{
    let wanted = String::from_str(key);
    let mut i: usize = 0;
    assert(members@.subrange(0, members@.len() as int) == members@);
    while i < members.len()
        invariant
            i <= members@.len(),
            wanted@ == key@,
            member_at(members@, key@) == member_at(
                members@.subrange(i as int, members@.len() as int),
                key@,
            ),
        decreases members@.len() - i,
    {
        proof {
            let rest = members@.subrange(i as int, members@.len() as int);
            assert(rest[0] == members@[i as int]);
            assert(rest.drop_first() == members@.subrange(i + 1, members@.len() as int));
        }
        if members[i].key == wanted {
            return Some(&members[i].value);
        }
        i = i + 1;
    }
    None
}

/// What looking a field up and reading it came to.
#[derive(Clone, Copy, Debug, PartialEq, Eq)]
pub enum Found<T> {
    /// The object has no member with the key.
    Absent,
    /// The member holds `null`.
    Null,
    /// The member holds something that is not of the wanted kind, or is out
    /// of its range.
    Mistyped,
    /// The member's value.
    Value(T),
}

/// The outcome for a member `entry` that reads as `reading` where it holds
/// anything but `null`.
pub open spec fn found_of<T>(entry: Option<Json>, reading: Option<T>) -> Found<T> {
    match entry {
        None => Found::Absent,
        Some(Json::Null) => Found::Null,
        Some(_) => match reading {
            None => Found::Mistyped,
            Some(value) => Found::Value(value),
        },
    }
}

/// `value` as a truth value.
pub open spec fn as_bool(value: Json) -> Option<bool> {
    match value {
        Json::Bool(b) => Some(b),
        _ => None,
    }
}

/// `value` as an integer from zero up to `max`.
pub open spec fn as_unsigned(value: Json, max: u64) -> Option<u64> {
    match value {
        Json::Number(n) => match n.unsigned {
            Some(v) => if v <= max {
                Some(v)
            } else {
                None
            },
            None => None,
        },
        _ => None,
    }
}

/// `value` as an integer from `min` up to `max`.
pub open spec fn as_signed(value: Json, min: i64, max: i64) -> Option<i64> {
    match value {
        Json::Number(n) => match n.signed {
            Some(v) => if min <= v <= max {
                Some(v)
            } else {
                None
            },
            None => None,
        },
        _ => None,
    }
}

/// `value` as a number in decimal notation.
pub open spec fn as_decimal(value: Json) -> Option<String> {
    match value {
        Json::Number(n) => Some(n.text),
        _ => None,
    }
}

/// `value` as a text.
pub open spec fn as_text(value: Json) -> Option<String> {
    match value {
        Json::Text(s) => Some(s),
        _ => None,
    }
}

/// The reading of an optional entry with `read`, `None` where there is no
/// entry.
pub open spec fn reading_of<T>(entry: Option<Json>, read: spec_fn(Json) -> Option<T>) -> Option<
    T,
> {
    match entry {
        Some(value) => read(value),
        None => None,
    }
}

/// The member `key` of `members` as a truth value.
pub open spec fn bool_at(members: Seq<Member>, key: Seq<char>) -> Found<bool> {
    let entry = member_at(members, key);
    found_of(entry, reading_of(entry, |v: Json| as_bool(v)))
}

/// The member `key` of `members` as an integer from zero up to `max`.
pub open spec fn unsigned_at(members: Seq<Member>, key: Seq<char>, max: u64) -> Found<u64> {
    let entry = member_at(members, key);
    found_of(entry, reading_of(entry, |v: Json| as_unsigned(v, max)))
}

/// The member `key` of `members` as an integer from `min` up to `max`.
pub open spec fn signed_at(members: Seq<Member>, key: Seq<char>, min: i64, max: i64) -> Found<
    i64,
> {
    let entry = member_at(members, key);
    found_of(entry, reading_of(entry, |v: Json| as_signed(v, min, max)))
}

/// The member `key` of `members` as a number in decimal notation.
pub open spec fn decimal_at(members: Seq<Member>, key: Seq<char>) -> Found<String> {
    let entry = member_at(members, key);
    found_of(entry, reading_of(entry, |v: Json| as_decimal(v)))
}

/// The member `key` of `members` as a text.
pub open spec fn text_at(members: Seq<Member>, key: Seq<char>) -> Found<String> {
    let entry = member_at(members, key);
    found_of(entry, reading_of(entry, |v: Json| as_text(v)))
}

/// Reads the member `key` of `members` as a truth value.
pub fn read_bool(members: &Vec<Member>, key: &str) -> (r: Found<bool>)
    ensures
        r == bool_at(members@, key@),
{
    match lookup(members, key) {
        None => Found::Absent,
        Some(Json::Null) => Found::Null,
        Some(Json::Bool(b)) => Found::Value(*b),
        Some(_) => Found::Mistyped,
    }
}

/// Reads the member `key` of `members` as an integer from zero up to `max`.
pub fn read_unsigned(members: &Vec<Member>, key: &str, max: u64) -> (r: Found<u64>)
    ensures
        r == unsigned_at(members@, key@, max),
        r matches Found::Value(v) ==> v <= max,
{
    match lookup(members, key) {
        None => Found::Absent,
        Some(Json::Null) => Found::Null,
        Some(Json::Number(n)) => match n.unsigned {
            Some(v) => if v <= max {
                Found::Value(v)
            } else {
                Found::Mistyped
            },
            None => Found::Mistyped,
        },
        Some(_) => Found::Mistyped,
    }
}

/// Reads the member `key` of `members` as an integer from `min` up to `max`.
pub fn read_signed(members: &Vec<Member>, key: &str, min: i64, max: i64) -> (r: Found<i64>)
    ensures
        r == signed_at(members@, key@, min, max),
        r matches Found::Value(v) ==> min <= v <= max,
{
    match lookup(members, key) {
        None => Found::Absent,
        Some(Json::Null) => Found::Null,
        Some(Json::Number(n)) => match n.signed {
            Some(v) => if min <= v && v <= max {
                Found::Value(v)
            } else {
                Found::Mistyped
            },
            None => Found::Mistyped,
        },
        Some(_) => Found::Mistyped,
    }
}

/// Reads the member `key` of `members` as a number in decimal notation.
pub fn read_decimal(members: &Vec<Member>, key: &str) -> (r: Found<String>)
    ensures
        r == decimal_at(members@, key@),
{
    match lookup(members, key) {
        None => Found::Absent,
        Some(Json::Null) => Found::Null,
        Some(Json::Number(n)) => Found::Value(n.text.clone()),
        Some(_) => Found::Mistyped,
    }
}

/// Reads the member `key` of `members` as a text.
pub fn read_text(members: &Vec<Member>, key: &str) -> (r: Found<String>)
    ensures
        r == text_at(members@, key@),
{
    match lookup(members, key) {
        None => Found::Absent,
        Some(Json::Null) => Found::Null,
        Some(Json::Text(s)) => Found::Value(s.clone()),
        Some(_) => Found::Mistyped,
    }
}

} // verus!
