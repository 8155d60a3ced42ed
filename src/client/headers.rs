//! The header map of the HTTP stack, as the library sees it: a map from each
//! header name to the values held under it, in order.
use vstd::prelude::*;

use reqwest::header::{HeaderMap, HeaderName, HeaderValue};

verus! {

#[verifier::external_type_specification]
#[verifier::external_body]
#[verifier::reject_recursive_types(T)]
pub struct ExHeaderMap<T>(HeaderMap<T>);

#[verifier::external_type_specification]
#[verifier::external_body]
pub struct ExHeaderValue(HeaderValue);

/// The number of distinct names below which an insertion cannot panic.
///
/// http's header map holds at most 32768 slots; before an insertion it may
/// double its slots once a fifth of them are taken, and panics where that
/// would pass the maximum. With fewer than 6553 names that never happens.
pub const HEADER_ROOM: usize = 6553;

/// What a header map holds: each name, in lower case, with its values in order.
pub uninterp spec fn header_entries(m: HeaderMap) -> Map<Seq<char>, Seq<Seq<char>>>;

/// A byte that may stand in a header name given in lower case.
pub open spec fn is_header_name_char(c: char) -> bool {
    ||| c == '!' || c == '"' || c == '#' || c == '$' || c == '%' || c == '&' || c == '\''
    ||| c == '*' || c == '+' || c == '-' || c == '.'
    ||| ('0' <= c && c <= '9')
    ||| c == '^' || c == '_' || c == '`'
    ||| ('a' <= c && c <= 'z')
    ||| c == '|' || c == '~'
}

/// A header name that may be given as a static string.
pub open spec fn valid_header_name(s: Seq<char>) -> bool {
    &&& 0 < s.len() <= 65535
    &&& forall|i: int| 0 <= i < s.len() ==> #[trigger] is_header_name_char(s[i])
}

/// A header value that may be given as a static string: visible ASCII or tab.
pub open spec fn valid_header_value(s: Seq<char>) -> bool {
    forall|i: int| 0 <= i < s.len() ==> (' ' <= #[trigger] s[i] && s[i] <= '~') || s[i] == '\t'
}

/// Relies on the `Clone` that http derives for `HeaderMap`: the copy holds
/// the same names with the same values in order.
#[verifier::external_body]
pub(crate) fn clone_headers(m: &HeaderMap) -> (r: HeaderMap)
    ensures
        header_entries(r) == header_entries(*m),
{
    m.clone()
}

/// Relies on http's `HeaderMap::new`: the new map holds nothing.
#[verifier::external_body]
pub(crate) fn new_header_map() -> (m: HeaderMap)
    ensures
        header_entries(m).dom() == Set::<Seq<char>>::empty(),
{
    HeaderMap::new()
}

/// Relies on http's `HeaderMap::insert`, which replaces every value held
/// under the name, and on `HeaderName::from_static` and
/// `HeaderValue::from_static`, which take the valid names and values as they
/// are and panic on others.
#[verifier::external_body]
pub(crate) fn insert_header(m: &mut HeaderMap, key: &'static str, val: &'static str)
    requires
        valid_header_name(key@),
        valid_header_value(val@),
        header_entries(*old(m)).dom().len() < HEADER_ROOM,
    ensures
        header_entries(*final(m)) == header_entries(*old(m)).insert(key@, seq![val@]),
{
    m.insert(HeaderName::from_static(key), HeaderValue::from_static(val));
}

/// Relies on http's `Extend` of a `HeaderMap` by another: each name of `src`
/// replaces the values that `dst` held under it with those of `src`.
#[verifier::external_body]
pub(crate) fn extend_headers(dst: &mut HeaderMap, src: HeaderMap)
    requires
        header_entries(*old(dst)).dom().len() + header_entries(src).dom().len() < HEADER_ROOM,
    ensures
        header_entries(*final(dst)) == header_entries(*old(dst)).union_prefer_right(
            header_entries(src),
        ),
{
    dst.extend(src);
}

/// Relies on http's `HeaderMap::keys_len`: the number of distinct names.
#[verifier::external_body]
pub(crate) fn header_names_len(m: &HeaderMap) -> (r: usize)
    ensures
        r == header_entries(*m).dom().len(),
{
    m.keys_len()
}

} // verus!
