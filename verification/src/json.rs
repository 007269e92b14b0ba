//! JSON documents. Reading JSON text and walking the resulting tree is left
//! to `serde_json`; this module states, without proof, what its functions
//! return, in terms of a mathematical model of the tree.

use vstd::prelude::*;

verus! {

/// `serde_json::Value`, a JSON document in memory, as an opaque type.
#[verifier::external_type_specification]
#[verifier::external_body]
pub struct ExValue(serde_json::Value);

/// `serde_json::Error`, the reason why a text is no JSON, as an opaque type.
#[verifier::external_type_specification]
#[verifier::external_body]
pub struct ExError(serde_json::Error);

/// The mathematical value of a JSON document: a tree with one kind of node
/// for each kind of JSON value. A number is an `Integer` where `serde_json`
/// holds it as an integer of 64 bits, signed or unsigned, and a `Real`
/// where it holds it as a floating-point number, whose value the model
/// leaves out.
pub enum Json {
    Null,
    Bool(bool),
    Integer(int),
    Real,
    Text(Seq<char>),
    List(Seq<Json>),
    Object(Map<Seq<char>, Json>),
}

impl Json {
    /// The member of an object under a key, where that member is itself an
    /// object.
    pub open spec fn object_member(self, key: Seq<char>) -> Option<Json> {
        match self.member(key) {
            Some(part) => if part is Object {
                Some(part)
            } else {
                None
            },
            None => None,
        }
    }

    /// The member of an object under a key; `None` where there is no such
    /// member or the value is no object.
    pub open spec fn member(self, key: Seq<char>) -> Option<Json> {
        match self {
            Json::Object(members) => if members.contains_key(key) {
                Some(members[key])
            } else {
                None
            },
            _ => None,
        }
    }

    /// The integer of a number that fits in 64 bits, signed.
    pub open spec fn small_integer(self) -> Option<i64> {
        match self {
            Json::Integer(n) => if i64::MIN <= n <= i64::MAX {
                Some(n as i64)
            } else {
                None
            },
            _ => None,
        }
    }
}

/// The tree that a `serde_json::Value` holds. The value is opaque here:
/// all that is known of its tree is what the functions below say.
pub uninterp spec fn json_view(value: serde_json::Value) -> Json;

/// The tree that `serde_json` reads from a text; `None` where it refuses the text.
pub uninterp spec fn json_parse(text: Seq<char>) -> Option<Json>;

/// `serde_json::from_str` at type `Value`: the outcome depends on the text
/// alone, and a value that comes back holds the tree read from the text.
#[verifier::external_body]
pub(crate) fn parse_value(text: &str) -> (r: Result<serde_json::Value, serde_json::Error>)
    ensures
        match r {
            Ok(value) => json_parse(text@) == Some(json_view(value)),
            Err(_) => json_parse(text@) is None,
        },
{
    serde_json::from_str::<serde_json::Value>(text)
}

/// `Value::get` with a text as index: the member of an object under that
/// key, and `None` for a missing key or a value that is no object.
#[verifier::external_body]
pub(crate) fn value_member<'a>(value: &'a serde_json::Value, key: &str) -> (r: Option<
    &'a serde_json::Value,
>)
    ensures
        match r {
            Some(member) => json_view(*value).member(key@) == Some(json_view(*member)),
            None => json_view(*value).member(key@) is None,
        },
{
    value.get(key)
}

/// `Value::as_str`: the text of a JSON string, `None` for any other value.
pub assume_specification<'a>[ serde_json::Value::as_str ](value: &'a serde_json::Value) -> (r:
    Option<&'a str>)
    ensures
        match r {
            Some(text) => json_view(*value) == Json::Text(text@),
            None => !(json_view(*value) is Text),
        },
;

/// `Value::as_i64`: the integer of a JSON number that is an integer and fits
/// in an `i64`, `None` for any other value.
pub assume_specification[ serde_json::Value::as_i64 ](value: &serde_json::Value) -> (r: Option<i64>)
    ensures
        r == json_view(*value).small_integer(),
;

/// `Value::is_null`: whether the value is JSON's `null`.
pub assume_specification[ serde_json::Value::is_null ](value: &serde_json::Value) -> (r: bool)
    ensures
        r == (json_view(*value) is Null),
;

/// `Value::is_object`: whether the value is a JSON object.
pub assume_specification[ serde_json::Value::is_object ](value: &serde_json::Value) -> (r: bool)
    ensures
        r == (json_view(*value) is Object),
;

/// `Value::as_array`: the items of a JSON array, in order, `None` for any
/// other value.
pub assume_specification<'a>[ serde_json::Value::as_array ](value: &'a serde_json::Value) -> (r:
    Option<&'a Vec<serde_json::Value>>)
    ensures
        match r {
            Some(items) => json_view(*value) matches Json::List(list) && list.len() == items@.len()
                && forall|i: int|
                0 <= i < list.len() ==> #[trigger] list[i] == json_view(items@[i]),
            None => !(json_view(*value) is List),
        },
;

} // verus!
