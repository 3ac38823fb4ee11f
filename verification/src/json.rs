//! What the platform API's JSON values hold, and the calls that read them.

use serde_json::Value as JsonValue;
use vstd::prelude::*;

verus! {

/// A JSON document as a mathematical value.
///
/// An integer is its number. A float stands as a code of its own: two floats have one code just
/// when they compare equal, and no float equals an integer, as in `serde_json`.
pub enum Json {
    Null,
    Bool(bool),
    Int(int),
    Float(int),
    Str(Seq<char>),
    Array(Seq<Json>),
    Object(Map<Seq<char>, Json>),
}

impl Json {
    /// The member of an object under `key`; no other document has members.
    pub open spec fn member(self, key: Seq<char>) -> Option<Json> {
        match self {
            Json::Object(members) if members.dom().contains(key) => Some(members[key]),
            _ => None,
        }
    }

    /// The integer that the document is, where it fits 64 bits with a sign.
    pub open spec fn as_integer(self) -> Option<i64> {
        match self {
            Json::Int(n) if i64::MIN <= n <= i64::MAX => Some(n as i64),
            _ => None,
        }
    }
}

/// `serde_json::Value`, opaque to the verifier.
#[verifier::external_type_specification]
#[verifier::external_body]
pub struct ExJsonValue(JsonValue);

/// What a `serde_json::Value` holds: an array its items in their order, an object its members by
/// their names.
pub uninterp spec fn json_content(value: JsonValue) -> Json;

/// A reference token that a JSON pointer can only resolve in an object: it has no separator and no
/// escape, and does not begin as an array index does.
pub open spec fn is_member_token(token: Seq<char>) -> bool {
    &&& token.len() > 0
    &&& !token.contains('/')
    &&& !token.contains('~')
    &&& !('0' <= token[0] <= '9')
}

/// `serde_json::Value::pointer`, for a pointer of one token that names an object's member: it
/// finds that member, and nothing in any other document.
pub assume_specification<'a>[ JsonValue::pointer ](
    value: &'a JsonValue,
    pointer: &str,
) -> (found: Option<&'a JsonValue>)
    requires
        pointer@.len() > 0,
        pointer@[0] == '/',
        is_member_token(pointer@.skip(1)),
    ensures
        match found {
            Some(member) => json_content(*value).member(pointer@.skip(1)) == Some(
                json_content(*member),
            ),
            None => json_content(*value).member(pointer@.skip(1)) is None,
        },
;

/// `serde_json::Value::as_i64`: the integer that the value is, if it is one and fits.
pub assume_specification[ JsonValue::as_i64 ](value: &JsonValue) -> (number: Option<i64>)
    ensures
        number == json_content(*value).as_integer(),
;

/// `serde_json::Value::as_str`: the text of a string value, and nothing for any other.
pub assume_specification[ JsonValue::as_str ](value: &JsonValue) -> (text: Option<&str>)
    ensures
        match text {
            Some(text) => json_content(*value) == Json::Str(text@),
            None => !(json_content(*value) is Str),
        },
;

/// The `Clone` of `serde_json::Value`: the copy holds the same document.
pub assume_specification[ <JsonValue as Clone>::clone ](value: &JsonValue) -> (copy: JsonValue)
    ensures
        json_content(copy) == json_content(*value),
;

/// The `==` of `serde_json::Value`: whether two values hold one document, the members of an
/// object in no order.
#[verifier::external_body]
pub(crate) fn json_equal(left: &JsonValue, right: &JsonValue) -> (equal: bool)
    ensures
        equal == (json_content(*left) == json_content(*right)),
{
    left == right
}

/// The `From<u8>` of `serde_json::Value`: the number as a JSON integer.
#[verifier::external_body]
pub(crate) fn json_from_u8(number: u8) -> (value: JsonValue)
    ensures
        json_content(value) == Json::Int(number as int),
{
    JsonValue::from(number)
}

/// Whether a value is the empty text, which the platform sends for want of data.
pub fn is_empty_text(value: &JsonValue) -> (empty: bool)
    ensures
        empty == (json_content(*value) == Json::Str(seq![])),
{
    match value.as_str() {
        Some(text) => {
            let empty: bool = text.is_empty();
            assert(empty ==> text@ =~= seq![]);
            empty
        },
        None => false,
    }
}

/// Only an object has members, and those are the ones that it was made of.
pub proof fn law_member(document: Json, key: Seq<char>, value: Json)
    ensures
        document.member(key) == Some(value) <==> (document matches Json::Object(members)
            && members.dom().contains(key) && members[key] == value),
{
}

/// Only an integer of 64 bits with a sign reads as one, and it reads as itself.
pub proof fn law_as_integer(document: Json, number: i64)
    ensures
        document.as_integer() == Some(number) <==> document == Json::Int(number as int),
{
}

} // verus!
