//! Header sets of the HTTP transport, seen as multisets of name/value pairs.

use vstd::prelude::*;

use axum::http::{HeaderMap, HeaderValue};

verus! {

#[verifier::external_type_specification]
#[verifier::external_body]
#[verifier::reject_recursive_types(T)]
pub struct ExHeaderMap<T>(HeaderMap<T>);

#[verifier::external_type_specification]
#[verifier::external_body]
pub struct ExHeaderValue(HeaderValue);

/// What a header map holds: each stored name, as `HeaderName::as_str` gives
/// it, mapped to the bytes of its values in the order `get_all` yields them,
/// which is the order they were added in.
pub uninterp spec fn header_entries(m: HeaderMap) -> Map<Seq<char>, Seq<Seq<u8>>>;

/// A character with ASCII upper case folded to lower case, as a code point.
pub open spec fn ascii_fold(c: char) -> u32 {
    if 'A' <= c && c <= 'Z' {
        (c as u32 + 32) as u32
    } else {
        c as u32
    }
}

/// Two header names that are equal when ASCII case is ignored.
pub open spec fn same_header_name(a: Seq<char>, b: Seq<char>) -> bool {
    &&& a.len() == b.len()
    &&& forall|i: int| 0 <= i < a.len() ==> #[trigger] ascii_fold(a[i]) == ascii_fold(b[i])
}

/// The entries of `entries` whose name is not `name`, ignoring ASCII case.
pub open spec fn without_name(
    entries: Map<Seq<char>, Seq<Seq<u8>>>,
    name: Seq<char>,
) -> Map<Seq<char>, Seq<Seq<u8>>> {
    entries.filter_keys(|k: Seq<char>| !same_header_name(k, name))
}

/// Relies on `http::HeaderMap::new`: the new map is empty.
#[verifier::external_body]
pub(crate) fn empty_headers() -> (r: HeaderMap)
    ensures
        header_entries(r).dom().is_empty(),
{
    HeaderMap::new()
}

/// Relies on `Clone for http::HeaderMap`: the copy holds the same entries.
#[verifier::external_body]
pub(crate) fn clone_headers(m: &HeaderMap) -> (r: HeaderMap)
    ensures
        header_entries(r) == header_entries(*m),
{
    m.clone()
}

/// Relies on `http::HeaderMap::remove` with a `&str` key: every value stored
/// under a name equal to the key, ignoring ASCII case, is removed; a key that
/// is no valid header name matches nothing. The values of the other names
/// stay, in their order.
#[verifier::external_body]
pub(crate) fn remove_header(m: &mut HeaderMap, name: &str)
    ensures
        header_entries(*final(m)) == without_name(header_entries(*old(m)), name@),
{
    m.remove(name);
}

} // verus!
