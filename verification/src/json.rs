//! Access to JSON documents through `serde_json`.
//!
//! The document type is opaque here: every reading of it goes through a small
//! set of named results and trusted accessors, and the decoding logic built on
//! top of them is verified.

use vstd::prelude::*;

verus! {

/// serde_json's JSON document type, declared so that values of it can stand in
/// signatures and fields; nothing inside such a value is visible here.
#[verifier::external_type_specification]
#[verifier::external_body]
pub struct ExValue(serde_json::Value);

/// The document that `serde_json::from_slice` reads from the bytes, or the
/// parser's message; the outcome depends on the bytes alone.
pub uninterp spec fn json_of(bytes: Seq<u8>) -> Result<serde_json::Value, String>;

/// The characters of a JSON string value; `None` for every other kind of value.
pub uninterp spec fn json_string(v: serde_json::Value) -> Option<String>;

/// The value of a JSON integer that fits in `i64`; `None` otherwise.
pub uninterp spec fn json_integer(v: serde_json::Value) -> Option<i64>;

/// The decimal rendering of a JSON number; `None` for every other kind of value.
pub uninterp spec fn json_number_text(v: serde_json::Value) -> Option<String>;

/// The elements of a JSON array, in order; `None` for every other kind of value.
pub uninterp spec fn json_elements(v: serde_json::Value) -> Option<Seq<serde_json::Value>>;

/// The key/value members of a JSON object, in the order the map hands them
/// out; `None` for every other kind of value.
pub uninterp spec fn json_members(v: serde_json::Value) -> Option<
    Seq<(String, serde_json::Value)>,
>;

/// Whether the value is JSON `null`.
pub uninterp spec fn json_is_null(v: serde_json::Value) -> bool;

/// The text that lossy UTF-8 decoding reads from the bytes; it depends on the
/// bytes alone, and on ASCII input it is the bytes themselves as characters.
pub uninterp spec fn text_of_bytes(bytes: Seq<u8>) -> String;

/// Relies on `serde_json::from_slice::<Value>`: parses the whole byte slice as
/// one JSON document, or reports the parser's message; deterministic in the
/// bytes.
#[verifier::external_body]
pub(crate) fn parse_json(bytes: &[u8]) -> (r: Result<serde_json::Value, String>)
    ensures
        r == json_of(bytes@),
{
    serde_json::from_slice::<serde_json::Value>(bytes).map_err(|e| e.to_string())
}

/// Relies on `serde_json::Value::as_str`: `Some` exactly for a JSON string,
/// carrying its characters.
#[verifier::external_body]
pub(crate) fn value_string(v: &serde_json::Value) -> (r: Option<String>)
    ensures
        r == json_string(*v),
{
    v.as_str().map(str::to_owned)
}

/// Relies on `serde_json::Value::as_i64`: `Some` exactly for a JSON integer
/// representable in `i64`.
#[verifier::external_body]
pub(crate) fn value_integer(v: &serde_json::Value) -> (r: Option<i64>)
    ensures
        r == json_integer(*v),
{
    v.as_i64()
}

/// Relies on `serde_json::Value::as_number` and the decimal display of
/// `serde_json::Number`: `Some` exactly for a JSON number, rendered as text;
/// the rendering depends on the number alone.
#[verifier::external_body]
pub(crate) fn value_number_text(v: &serde_json::Value) -> (r: Option<String>)
    ensures
        r == json_number_text(*v),
{
    v.as_number().map(|n| n.to_string())
}

/// Relies on `serde_json::Value::as_array`: `Some` exactly for a JSON array,
/// with its elements in order.
#[verifier::external_body]
pub(crate) fn value_elements(v: &serde_json::Value) -> (r: Option<Vec<serde_json::Value>>)
    ensures
        r matches Some(es) ==> json_elements(*v) matches Some(ss) && es@ == ss,
        r is None ==> json_elements(*v) is None,
{
    v.as_array().cloned()
}

/// Relies on `serde_json::Value::as_object` and the map's iteration: `Some`
/// exactly for a JSON object, with its members in the map's own order.
#[verifier::external_body]
pub(crate) fn value_members(v: &serde_json::Value) -> (r: Option<
    Vec<(String, serde_json::Value)>,
>)
    ensures
        r matches Some(es) ==> json_members(*v) matches Some(ss) && es@ == ss,
        r is None ==> json_members(*v) is None,
{
    v.as_object().map(|m| m.iter().map(|(k, val)| (k.clone(), val.clone())).collect())
}

/// Relies on `serde_json::Value::is_null`.
#[verifier::external_body]
pub(crate) fn value_is_null(v: &serde_json::Value) -> (r: bool)
    ensures
        r == json_is_null(*v),
{
    v.is_null()
}

/// Relies on `String::from_utf8_lossy`: decodes the bytes as UTF-8 text,
/// replacing invalid sequences; on ASCII bytes the text is the bytes
/// themselves.
#[verifier::external_body]
pub(crate) fn bytes_to_text(bytes: &[u8]) -> (r: String)
    ensures
        r == text_of_bytes(bytes@),
        (forall|i: int| 0 <= i < bytes@.len() ==> bytes@[i] < 128) ==> r@ == Seq::new(
            bytes@.len(),
            |i: int| bytes@[i] as char,
        ),
{
    String::from_utf8_lossy(bytes).into_owned()
}

/// The first member with the given key, if the value is an object that holds
/// one.
pub open spec fn member_lookup(
    members: Seq<(String, serde_json::Value)>,
    key: Seq<char>,
) -> Option<serde_json::Value>
    decreases members.len(),
{
    if members.len() == 0 {
        None
    } else if members[0].0@ == key {
        Some(members[0].1)
    } else {
        member_lookup(members.drop_first(), key)
    }
}

/// The string content of the member named `key`, if present and a string.
pub open spec fn string_field(
    members: Seq<(String, serde_json::Value)>,
    key: Seq<char>,
) -> Option<String> {
    match member_lookup(members, key) {
        None => None,
        Some(v) => json_string(v),
    }
}

/// The integer content of the member named `key`, if present and an integer.
pub open spec fn integer_field(
    members: Seq<(String, serde_json::Value)>,
    key: Seq<char>,
) -> Option<i64> {
    match member_lookup(members, key) {
        None => None,
        Some(v) => json_integer(v),
    }
}

/// The integer content of the member named `key`, narrowed to `i32`; `None`
/// when absent, not an integer, or out of range.
pub open spec fn int32_field(
    members: Seq<(String, serde_json::Value)>,
    key: Seq<char>,
) -> Option<i32> {
    match integer_field(members, key) {
        None => None,
        Some(x) => if -2147483648 <= x <= 2147483647 {
            Some(x as i32)
        } else {
            None
        },
    }
}

/// The elements of the array member named `key`, if present and an array.
pub open spec fn elements_field(
    members: Seq<(String, serde_json::Value)>,
    key: Seq<char>,
) -> Option<Seq<serde_json::Value>> {
    match member_lookup(members, key) {
        None => None,
        Some(v) => json_elements(v),
    }
}

pub(crate) fn find_member<'a>(
    members: &'a Vec<(String, serde_json::Value)>,
    key: &str,
) -> (r: Option<&'a serde_json::Value>)
    ensures
        r matches Some(v) ==> member_lookup(members@, key@) == Some(*v),
        r is None ==> member_lookup(members@, key@) is None,
{
    let wanted: String = key.to_owned();
    let mut i: usize = 0;
    proof {
        assert(members@.skip(0) =~= members@);
    }
    while i < members.len()
        invariant
            0 <= i <= members@.len(),
            wanted@ == key@,
            member_lookup(members@, key@) == member_lookup(members@.skip(i as int), key@),
        decreases members@.len() - i,
    {
        proof {
            assert(members@.skip(i as int).drop_first() =~= members@.skip(i as int + 1));
            assert(members@.skip(i as int)[0] == members@[i as int]);
        }
        if members[i].0 == wanted {
            return Some(&members[i].1);
        }
        i += 1;
    }
    proof {
        assert(members@.skip(i as int) =~= Seq::<(String, serde_json::Value)>::empty());
    }
    None
}

pub(crate) fn get_string(
    members: &Vec<(String, serde_json::Value)>,
    key: &str,
) -> (r: Option<String>)
    ensures
        r == string_field(members@, key@),
{
    match find_member(members, key) {
        None => None,
        Some(v) => value_string(v),
    }
}

pub(crate) fn get_integer(members: &Vec<(String, serde_json::Value)>, key: &str) -> (r: Option<
    i64,
>)
    ensures
        r == integer_field(members@, key@),
{
    match find_member(members, key) {
        None => None,
        Some(v) => value_integer(v),
    }
}

pub(crate) fn get_int32(members: &Vec<(String, serde_json::Value)>, key: &str) -> (r: Option<i32>)
    ensures
        r == int32_field(members@, key@),
{
    match get_integer(members, key) {
        None => None,
        Some(x) => if -2147483648i64 <= x && x <= 2147483647i64 {
            Some(x as i32)
        } else {
            None
        },
    }
}

pub(crate) fn get_elements(members: &Vec<(String, serde_json::Value)>, key: &str) -> (r: Option<
    Vec<serde_json::Value>,
>)
    ensures
        r matches Some(es) ==> elements_field(members@, key@) matches Some(ss) && es@ == ss,
        r is None ==> elements_field(members@, key@) is None,
{
    match find_member(members, key) {
        None => None,
        Some(v) => value_elements(v),
    }
}

} // verus!
