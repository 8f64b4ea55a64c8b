use vstd::prelude::*;

verus! {

/// A JSON-like value for request bodies: partial updates and job payloads
/// carry each field as a typed value of this shape rather than widened to
/// text, so that numbers, booleans and nested structures keep their types.
/// The encoding to wire JSON is the host application's concern.
#[derive(Debug, PartialEq)]
pub enum JsonValue {
    Null,
    Boolean(bool),
    Integer(i64),
    Text(String),
    Array(Vec<JsonValue>),
    Object(Vec<(String, JsonValue)>),
}

/// The body field `p` binds `key` to the text `value`.
pub open spec fn field_is_text(p: (String, JsonValue), key: Seq<char>, value: Seq<char>) -> bool {
    &&& p.0@ == key
    &&& p.1 matches JsonValue::Text(t) && t@ == value
}

/// How many fields an optional argument contributes: one when given, none
/// otherwise.
pub open spec fn opt_count<T>(value: Option<T>) -> int {
    match value {
        Some(_) => 1,
        None => 0,
    }
}

/// Appends one text-valued field to a request body.
pub fn push_text_field(data: &mut Vec<(String, JsonValue)>, key: &str, value: &str)
    ensures
        final(data)@.len() == old(data)@.len() + 1,
        final(data)@.drop_last() == old(data)@,
        field_is_text(final(data)@.last(), key@, value@),
{
    data.push((String::from_str(key), JsonValue::Text(String::from_str(value))));
    proof {
        assert(data@.drop_last() =~= old(data)@);
    }
}

/// Appends one text-valued field when a value was given; otherwise leaves
/// the body unchanged.
pub fn push_opt_text_field(data: &mut Vec<(String, JsonValue)>, key: &str, value: Option<&str>)
    ensures
        final(data)@.len() == old(data)@.len() + opt_count(value),
        value matches Some(v) ==> {
            &&& final(data)@.drop_last() == old(data)@
            &&& field_is_text(final(data)@.last(), key@, v@)
        },
        value is None ==> *final(data) == *old(data),
{
    if let Some(v) = value {
        push_text_field(data, key, v);
    }
}

} // verus!
