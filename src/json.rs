use vstd::prelude::*;

verus! {

/// A JSON value as exchanges send it, holding what decoding reads.
///
/// Numbers are split as JSON parsers split them: non-negative integers that
/// fit in 64 bits, negative integers, and every other number, which is kept
/// as its decimal text.
#[derive(Debug)]
pub enum JsonValue {
    Null,
    Bool(bool),
    PosInt(u64),
    NegInt(i64),
    Float(String),
    Str(String),
    Array(Vec<JsonValue>),
    Object(Vec<(String, JsonValue)>),
}

/// The unsigned integer that a value decodes to, if it decodes to one.
pub open spec fn u64_of(v: JsonValue) -> Option<u64> {
    match v {
        JsonValue::PosInt(n) => Some(n),
        _ => None,
    }
}

/// The text that a value decodes to, if it decodes to text.
pub open spec fn text_of(v: JsonValue) -> Option<Seq<char>> {
    match v {
        JsonValue::Str(s) => Some(s@),
        _ => None,
    }
}

impl JsonValue {
    /// Decodes the value as an unsigned integer.
    pub fn as_u64(&self) -> (r: Option<u64>)
        ensures
            r == u64_of(*self),
    {
        match self {
            JsonValue::PosInt(n) => Some(*n),
            _ => None,
        }
    }

    /// Decodes the value as text.
    pub fn as_text(&self) -> (r: Option<String>)
        ensures
            r is Some == text_of(*self) is Some,
            r matches Some(s) ==> Some(s@) == text_of(*self),
    {
        match self {
            JsonValue::Str(s) => Some(s.clone()),
            _ => None,
        }
    }
}

} // verus!
