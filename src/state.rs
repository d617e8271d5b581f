//! Process-wide configuration, built once at start-up and read by every request.

use vstd::prelude::*;

use crate::paths::{starts_with, strip_trailing_slashes, trim_trailing_slashes};

verus! {

/// Whether an address already names its scheme, `http://` or `https://`.
pub open spec fn has_http_scheme(api: Seq<char>) -> bool {
    "http://"@.is_prefix_of(api) || "https://"@.is_prefix_of(api)
}

/// The backend base URL for a configured address: plain HTTP unless a scheme is given.
pub open spec fn base_url_of(api: Seq<char>) -> Seq<char> {
    if has_http_scheme(api) {
        api
    } else {
        "http://"@ + api
    }
}

/// Shared application state accessible to all handlers.
pub struct AppState {
    /// Base URL of the backend API (e.g. "http://localhost:8081").
    pub api_base_url: String,
    /// Path prefix for API routes (e.g. "/pz"), without a trailing slash.
    pub api_path: String,
    /// Root directory for static file serving.
    pub static_dir: String,
}

impl AppState {
    /// The API prefix never ends with `/`.
    pub open spec fn wf(&self) -> bool {
        self.api_path@.len() == 0 || self.api_path@.last() != '/'
    }

    /// Builds the configuration from the address of the backend, the API
    /// prefix and the (already canonical) static root.
    pub fn new(api: &str, api_path: &str, static_dir: String) -> (r: AppState)
        ensures
            r.api_base_url@ == base_url_of(api@),
            r.api_path@ == trim_trailing_slashes(api_path@),
            r.static_dir == static_dir,
            r.wf(),
    {
        let api_base_url = normalize_base_url(api);
        let prefix = strip_trailing_slashes(api_path);
        proof {
            crate::paths::lemma_trimmed_has_no_trailing_slash(api_path@);
        }
        AppState { api_base_url, api_path: String::from_str(prefix), static_dir }
    }
}

/// Prefixes `http://` to an address that does not start with `http://` or
/// `https://`.
pub fn normalize_base_url(api: &str) -> (r: String)
    ensures
        r@ == base_url_of(api@),
{
    let scheme = starts_with(api, "http://") || starts_with(api, "https://");
    if scheme {
        String::from_str(api)
    } else {
        let mut url = String::from_str("http://");
        url.append(api);
        url
    }
}

} // verus!
