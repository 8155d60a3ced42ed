use vstd::prelude::*;

verus! {

/// Errors surfaced by the library.
///
/// Outside failures (transport, decoding of a whole body, storage) are kept
/// as the text that the outside crate gave for them.
#[derive(Debug, Clone)]
pub enum ExbotError {
    InvalidHeader { expected: String, found: String },
    Unknown,
    /// A configuration or usage error with its message.
    Error(String),
    IO(String),
    Toml(String),
    /// The body of a response could not be parsed.
    SerdeJson(String),
    /// The HTTP transport failed.
    Reqwest(String),
    /// The exchange answered with a status outside the success range.
    HttpStatus(u16),
    Sql(String),
    ToStr(String),
    /// A storage backend rejected a statement.
    Storage(String),
}

impl<'a> From<&'a str> for ExbotError {
    fn from(value: &'a str) -> (r: ExbotError)
        ensures
            r matches ExbotError::Error(m) && m@ == value@,
    {
        ExbotError::Error(value.to_owned())
    }
}

// The result holds a `String`, which no spec function can build, so no spec
// result is claimed here; the `ensures` of the impl above say what it is.
impl<'a> vstd::std_specs::convert::FromSpecImpl<&'a str> for ExbotError {
    open spec fn obeys_from_spec() -> bool {
        false
    }

    open spec fn from_spec(v: &'a str) -> ExbotError {
        ExbotError::Unknown
    }
}

} // verus!
