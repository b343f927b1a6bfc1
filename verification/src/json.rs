//! JSON documents as plain values, and the two calls into `serde_json` that
//! read and write JSON text.

use vstd::prelude::*;
use vstd::string::StringExecFns;

verus! {

#[verifier::external_type_specification]
#[verifier::external_body]
pub struct ExSerdeJsonError(serde_json::Error);

#[verifier::external_type_specification]
#[verifier::external_body]
pub struct ExSerdeJsonValue(serde_json::Value);

/// A JSON value held as plain data.
///
/// Numbers keep their decimal text; the members of an object are held in the
/// order in which the reader handed them out.
#[derive(Debug, PartialEq)]
pub enum JsonValue {
    Null,
    Bool(bool),
    Number(String),
    Text(String),
    Array(Vec<JsonValue>),
    Object(Vec<(String, JsonValue)>),
}

/// The document that a JSON text denotes; `None` where the text is no JSON.
pub uninterp spec fn json_document(text: Seq<char>) -> Option<JsonValue>;

/// The JSON string literal, quotes and escapes included, for a text.
pub uninterp spec fn json_string_literal(text: Seq<char>) -> Seq<char>;

/// The tree that a `serde_json::Value` holds.
pub uninterp spec fn json_tree(value: serde_json::Value) -> JsonValue;

/// `serde_json::from_str` at `serde_json::Value`. Trusted: the outcome
/// depends on the text alone; the value holds the document that the text
/// denotes, and the call fails exactly where the text denotes none.
#[verifier::external_body]
fn read_value(text: &str) -> (r: Result<serde_json::Value, serde_json::Error>)
    ensures
        r is Ok <==> json_document(text@) is Some,
        r matches Ok(value) ==> json_document(text@) == Some(json_tree(value)),
{
    serde_json::from_str::<serde_json::Value>(text)
}

/// Takes a `serde_json::Value` apart, variant by variant, into the tree that
/// it holds. A number is handed on as the text that its `Display` writes, the
/// members of an object in the order of `serde_json::Map`'s `into_iter`.
#[verifier::external_body]
fn lift(value: serde_json::Value) -> (tree: JsonValue)
    ensures
        tree == json_tree(value),
{
    match value {
        serde_json::Value::Null => JsonValue::Null,
        serde_json::Value::Bool(b) => JsonValue::Bool(b),
        serde_json::Value::Number(n) => JsonValue::Number(n.to_string()),
        serde_json::Value::String(s) => JsonValue::Text(s),
        serde_json::Value::Array(items) => JsonValue::Array(items.into_iter().map(lift).collect()),
        serde_json::Value::Object(members) => JsonValue::Object(
            members.into_iter().map(|(k, v)| (k, lift(v))).collect(),
        ),
    }
}

/// Reads a JSON text.
pub fn parse(text: &str) -> (r: Result<JsonValue, serde_json::Error>)
    ensures
        r is Ok <==> json_document(text@) is Some,
        r matches Ok(tree) ==> json_document(text@) == Some(tree),
{
    match read_value(text) {
        Ok(value) => Ok(lift(value)),
        Err(e) => Err(e),
    }
}

/// `serde_json::to_string` at `str`. Trusted: it never fails on a `str`, and
/// what it writes depends on the text alone.
#[verifier::external_body]
pub(crate) fn quote(text: &str) -> (r: Result<String, serde_json::Error>)
    ensures
        r is Ok,
        r matches Ok(literal) ==> literal@ == json_string_literal(text@),
{
    serde_json::to_string(text)
}

/// Writes a text as a JSON string literal.
pub fn string_literal(text: &str) -> (literal: String)
    ensures
        literal@ == json_string_literal(text@),
{
    match quote(text) {
        Ok(literal) => literal,
        Err(_) => vstd::pervasive::unreached(),
    }
}

/// The views of a list of strings, in order.
pub open spec fn views_of(parts: Seq<String>) -> Seq<Seq<char>> {
    Seq::new(parts.len(), |i: int| parts[i]@)
}

/// The parts in order, with a comma between each two neighbours.
pub open spec fn comma_separated(parts: Seq<Seq<char>>) -> Seq<char>
    decreases parts.len(),
{
    if parts.len() == 0 {
        Seq::empty()
    } else if parts.len() == 1 {
        parts[0]
    } else {
        comma_separated(parts.drop_last()) + ","@ + parts.last()
    }
}

/// The text of a JSON array whose elements have the given texts.
pub open spec fn array_text(items: Seq<Seq<char>>) -> Seq<char> {
    "["@ + comma_separated(items) + "]"@
}

/// The text of one object member: the key as a string literal, a colon, the
/// text of the value.
pub open spec fn member_text(key: Seq<char>, value: Seq<char>) -> Seq<char> {
    json_string_literal(key) + ":"@ + value
}

/// The texts of an object's members, in order.
pub open spec fn member_texts(members: Seq<(Seq<char>, Seq<char>)>) -> Seq<Seq<char>> {
    Seq::new(members.len(), |i: int| member_text(members[i].0, members[i].1))
}

/// The text of a JSON object whose members have the given keys and value
/// texts.
pub open spec fn object_text(members: Seq<(Seq<char>, Seq<char>)>) -> Seq<char> {
    "{"@ + comma_separated(member_texts(members)) + "}"@
}

/// Joins the parts with commas.
pub fn join_with_commas(parts: &Vec<String>) -> (joined: String)
    ensures
        joined@ == comma_separated(views_of(parts@)),
{
    let mut joined = String::new();
    let mut i: usize = 0;
    assert(views_of(parts@).take(0) =~= Seq::<Seq<char>>::empty());
    while i < parts.len()
        invariant
            i <= parts.len(),
            joined@ == comma_separated(views_of(parts@).take(i as int)),
        decreases parts.len() - i,
    {
        proof {
            let before = views_of(parts@).take(i as int);
            let after = views_of(parts@).take(i as int + 1);
            assert(after.drop_last() =~= before);
            assert(after.last() == parts@[i as int]@);
        }
        if i > 0 {
            joined.append(",");
        }
        joined.append(parts[i].as_str());
        i += 1;
    }
    assert(views_of(parts@).take(parts@.len() as int) =~= views_of(parts@));
    joined
}

/// Writes a JSON array from the texts of its elements.
pub fn write_array(items: &Vec<String>) -> (text: String)
    ensures
        text@ == array_text(views_of(items@)),
{
    let mut text = String::from_str("[");
    text.append(join_with_commas(items).as_str());
    text.append("]");
    text
}

/// The keys and value texts of a list of members, in order.
pub open spec fn pairs_of(members: Seq<(String, String)>) -> Seq<(Seq<char>, Seq<char>)> {
    Seq::new(members.len(), |i: int| (members[i].0@, members[i].1@))
}

/// Writes a JSON object from the keys of its members and the texts of their
/// values.
pub fn write_object(members: &Vec<(String, String)>) -> (text: String)
    ensures
        text@ == object_text(pairs_of(members@)),
{
    let mut parts: Vec<String> = Vec::new();
    let mut i: usize = 0;
    while i < members.len()
        invariant
            i <= members.len(),
            parts@.len() == i,
            forall|j: int|
                0 <= j < i ==> (#[trigger] parts@[j])@ == member_text(
                    members@[j].0@,
                    members@[j].1@,
                ),
        decreases members.len() - i,
    {
        let mut part = string_literal(members[i].0.as_str());
        part.append(":");
        part.append(members[i].1.as_str());
        parts.push(part);
        i += 1;
    }
    assert(views_of(parts@) =~= member_texts(pairs_of(members@)));
    let mut text = String::from_str("{");
    text.append(join_with_commas(&parts).as_str());
    text.append("}");
    text
}

/// `serde::de::Error::custom` at `serde_json::Error`: an error value that
/// carries the message. Trusted: nothing is stated of the value.
#[verifier::external_body]
pub(crate) fn shape_error(message: &str) -> (e: serde_json::Error) {
    serde::de::Error::custom(message)
}

/// The value stored under a key in an object's member list: that of the
/// first member with this key, `None` where no member has it.
pub open spec fn member_of(members: Seq<(String, JsonValue)>, key: Seq<char>) -> Option<JsonValue>
    decreases members.len(),
{
    if members.len() == 0 {
        None
    } else if members[0].0@ == key {
        Some(members[0].1)
    } else {
        member_of(members.drop_first(), key)
    }
}

/// Looks a key up in an object's member list.
pub fn find_member<'a>(members: &'a Vec<(String, JsonValue)>, key: &str) -> (found: Option<
    &'a JsonValue,
>)
    ensures
        match found {
            Some(value) => member_of(members@, key@) == Some(*value),
            None => member_of(members@, key@) is None,
        },
{
    let wanted = String::from_str(key);
    let mut i: usize = 0;
    assert(members@.skip(0) == members@);
    while i < members.len()
        invariant
            i <= members.len(),
            wanted@ == key@,
            member_of(members@, key@) == member_of(members@.skip(i as int), key@),
        decreases members.len() - i,
    {
        if members[i].0 == wanted {
            assert(members@.skip(i as int)[0] == members@[i as int]);
            return Some(&members[i].1);
        }
        assert(members@.skip(i as int).drop_first() == members@.skip(i as int + 1));
        i += 1;
    }
    None
}

} // verus!
