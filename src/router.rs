//! The single dispatch point between the proxy and static traffic.

use vstd::prelude::*;

verus! {

/// Whether a request path is API traffic: the prefix followed by `/`.
pub open spec fn is_api_path(prefix: Seq<char>, path: Seq<char>) -> bool {
    &&& path.len() > prefix.len()
    &&& path.subrange(0, prefix.len() as int) == prefix
    &&& path[prefix.len() as int] == '/'
}

/// Where a request goes.
pub enum Route {
    /// To the proxy forwarder, with the path after the prefix and its `/`.
    Proxy(String),
    /// To the static resolver, with the full original path.
    Static(String),
}

/// Routes a request path: API traffic to the proxy with the prefix stripped,
/// everything else (the bare prefix included) to the static resolver.
pub fn route_request(api_path: &str, uri_path: &str) -> (r: Route)
    ensures
        match r {
            Route::Proxy(rest) => is_api_path(api_path@, uri_path@) && rest@ == uri_path@.skip(
                api_path@.len() + 1int,
            ),
            Route::Static(path) => !is_api_path(api_path@, uri_path@) && path@ == uri_path@,
        },
{
    let n = api_path.unicode_len();
    let m = uri_path.unicode_len();
    if m <= n {
        return Route::Static(String::from_str(uri_path));
    }
    let mut i: usize = 0;
    while i < n
        invariant
            n == api_path@.len(),
            m == uri_path@.len(),
            n < m,
            i <= n,
            forall|j: int| 0 <= j < i ==> uri_path@[j] == api_path@[j],
        decreases n - i,
    {
        if uri_path.get_char(i) != api_path.get_char(i) {
            assert(uri_path@.subrange(0, n as int)[i as int] != api_path@[i as int]);
            return Route::Static(String::from_str(uri_path));
        }
        i = i + 1;
    }
    assert(uri_path@.subrange(0, n as int) =~= api_path@);
    if uri_path.get_char(n) != '/' {
        return Route::Static(String::from_str(uri_path));
    }
    let rest = uri_path.substring_char(n + 1, m);
    assert(rest@ =~= uri_path@.skip(n + 1));
    Route::Proxy(String::from_str(rest))
}

} // verus!
