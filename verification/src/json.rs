//! A minimal, self-contained JSON value model: the target shape of the
//! ESTree-style description of nodes. Object members keep their insertion
//! order, so a description is one concrete value that tests can compare
//! structurally.

use vstd::prelude::*;

verus! {

/// A JSON value. Numbers here are the unsigned integers the node model
/// needs (byte offsets); an object is an ordered member list.
#[derive(Debug, PartialEq)]
pub enum JsonValue {
    Null,
    Bool(bool),
    Num(u64),
    Str(String),
    Arr(Vec<JsonValue>),
    Obj(Vec<(String, JsonValue)>),
}

/// The member holds the given name and a string with the given text.
pub open spec fn is_str_field(f: (String, JsonValue), name: Seq<char>, text: Seq<char>) -> bool {
    f.0@ == name && (f.1 matches JsonValue::Str(s) && s@ == text)
}

/// The member holds the given name and number.
pub open spec fn is_num_field(f: (String, JsonValue), name: Seq<char>, value: u64) -> bool {
    f.0@ == name && f.1 == JsonValue::Num(value)
}

/// The member holds the given name and boolean.
pub open spec fn is_bool_field(f: (String, JsonValue), name: Seq<char>, value: bool) -> bool {
    f.0@ == name && f.1 == JsonValue::Bool(value)
}

} // verus!
