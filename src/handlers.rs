//! The static resolver and the proxy forwarder.

use vstd::prelude::*;

use axum::http::HeaderMap;

use crate::headers::{
    clone_headers, empty_headers, header_entries, remove_header, same_header_name, without_name,
};
use crate::paths::{api_url, index_fallback, opt_view, static_path_of, strip_leading_slashes};
use crate::state::AppState;

verus! {

/// Status sent with a file's contents.
pub const STATUS_OK: u16 = 200;

/// Status sent when a static file cannot be read.
pub const STATUS_NOT_FOUND: u16 = 404;

/// Status sent when the upstream cannot be reached.
pub const STATUS_BAD_GATEWAY: u16 = 502;

/// Relies on `std::path::Path::is_dir`: whether the path names a directory
/// on disk at the time of the call. Nothing is stated of the answer.
#[verifier::external_body]
fn path_is_dir(path: &str) -> (r: bool) {
    std::path::Path::new(path).is_dir()
}

/// Joins a URL path onto the static root: the URL path's leading slashes
/// are dropped and one `/` separates it from the root.
pub fn join_static_path(static_dir: &str, uri_path: &str) -> (r: String)
    ensures
        r@ == static_path_of(static_dir@, uri_path@),
{
    let rest = strip_leading_slashes(uri_path);
    let mut path = String::from_str(static_dir);
    path.append("/");
    path.append(rest);
    path
}

/// Appends the index file to a path that names a directory.
pub fn with_index_file(path: String, is_dir: bool) -> (r: String)
    ensures
        r@ == index_fallback(path@, is_dir),
{
    let mut path = path;
    if is_dir {
        path.append("/index.html");
    }
    path
}

/// Resolves a URL path to a file-system path under `static_dir`, with the
/// index file appended where the joined path is a directory.
pub fn resolve_static_path(static_dir: &str, uri_path: &str) -> (r: String)
    ensures
        r@ == static_path_of(static_dir@, uri_path@) || r@ == index_fallback(
            static_path_of(static_dir@, uri_path@),
            true,
        ),
{
    let path = join_static_path(static_dir, uri_path);
    let is_dir = path_is_dir(path.as_str());
    with_index_file(path, is_dir)
}

/// Builds the upstream URL: base, prefix, `/`, the path without its leading
/// slashes, then `?` and the query verbatim when there is one.
pub fn build_api_url(
    api_base_url: &str,
    api_path: &str,
    request_path: &str,
    query: Option<&str>,
) -> (r: String)
    ensures
        r@ == api_url(api_base_url@, api_path@, request_path@, opt_view(query)),
{
    let rest = strip_leading_slashes(request_path);
    let mut url = String::from_str(api_base_url);
    url.append(api_path);
    url.append("/");
    url.append(rest);
    match query {
        Some(q) => {
            url.append("?");
            url.append(q);
        },
        None => {},
    }
    url
}

/// Request headers that describe one connection leg and are never forwarded.
pub open spec fn is_request_hop_by_hop(name: Seq<char>) -> bool {
    ||| same_header_name(name, "host"@)
    ||| same_header_name(name, "accept-encoding"@)
    ||| same_header_name(name, "connection"@)
    ||| same_header_name(name, "keep-alive"@)
}

/// Response headers that describe one connection leg and are never relayed.
pub open spec fn is_response_hop_by_hop(name: Seq<char>) -> bool {
    ||| same_header_name(name, "transfer-encoding"@)
    ||| same_header_name(name, "content-encoding"@)
    ||| same_header_name(name, "connection"@)
    ||| same_header_name(name, "keep-alive"@)
}

/// The entries of a request that are forwarded upstream.
pub open spec fn forwarded_request_entries(
    entries: Map<Seq<char>, Seq<Seq<u8>>>,
) -> Map<Seq<char>, Seq<Seq<u8>>> {
    entries.filter_keys(|k: Seq<char>| !is_request_hop_by_hop(k))
}

/// The entries of an upstream response that are relayed to the client.
pub open spec fn relayed_response_entries(
    entries: Map<Seq<char>, Seq<Seq<u8>>>,
) -> Map<Seq<char>, Seq<Seq<u8>>> {
    entries.filter_keys(|k: Seq<char>| !is_response_hop_by_hop(k))
}

/// Removes the four given names, in turn, from a copy of `headers`.
fn without_names(headers: &HeaderMap, a: &str, b: &str, c: &str, d: &str) -> (r: HeaderMap)
    ensures
        header_entries(r) == without_name(
            without_name(without_name(without_name(header_entries(*headers), a@), b@), c@),
            d@,
        ),
{
    let mut filtered = clone_headers(headers);
    remove_header(&mut filtered, a);
    remove_header(&mut filtered, b);
    remove_header(&mut filtered, c);
    remove_header(&mut filtered, d);
    filtered
}

/// Removes the hop-by-hop request headers (`host`, `accept-encoding`,
/// `connection`, `keep-alive`, in any case); every other name keeps all its
/// values, in their order.
pub fn filter_request_headers(headers: &HeaderMap) -> (r: HeaderMap)
    ensures
        header_entries(r) == forwarded_request_entries(header_entries(*headers)),
        forall|name: Seq<char>|
            #[trigger] header_entries(r).contains_key(name) <==> header_entries(
                *headers,
            ).contains_key(name) && !is_request_hop_by_hop(name),
        forall|name: Seq<char>|
            #[trigger] header_entries(r).contains_key(name) ==> header_entries(r)[name]
                == header_entries(*headers)[name],
{
    let r = without_names(headers, "host", "accept-encoding", "connection", "keep-alive");
    assert(header_entries(r) =~= forwarded_request_entries(header_entries(*headers)));
    r
}

/// Removes the hop-by-hop response headers (`transfer-encoding`,
/// `content-encoding`, `connection`, `keep-alive`, in any case); every other
/// name keeps all its values, in their order.
pub fn filter_response_headers(headers: &HeaderMap) -> (r: HeaderMap)
    ensures
        header_entries(r) == relayed_response_entries(header_entries(*headers)),
        forall|name: Seq<char>|
            #[trigger] header_entries(r).contains_key(name) <==> header_entries(
                *headers,
            ).contains_key(name) && !is_response_hop_by_hop(name),
        forall|name: Seq<char>|
            #[trigger] header_entries(r).contains_key(name) ==> header_entries(r)[name]
                == header_entries(*headers)[name],
{
    let r = without_names(
        headers,
        "transfer-encoding",
        "content-encoding",
        "connection",
        "keep-alive",
    );
    assert(header_entries(r) =~= relayed_response_entries(header_entries(*headers)));
    r
}

/// The content type that `mime_guess` gives a path, by its extension.
pub uninterp spec fn guessed_content_type(path: Seq<char>) -> Seq<char>;

/// A path whose last segment has no `.`, so that `Path::extension` finds none.
pub open spec fn has_no_extension(path: Seq<char>) -> bool {
    &&& path.len() > 0
    &&& path.last() != '/'
    &&& forall|i: int|
        0 <= i < path.len() && #[trigger] path[i] == '.' ==> exists|j: int|
            i < j < path.len() && path[j] == '/'
}

/// Relies on `mime_guess::from_path(..).first_or_octet_stream()`: the first
/// type known for the path's extension, `application/octet-stream` if the
/// path has no extension or none is known.
#[verifier::external_body]
fn guess_content_type(path: &str) -> (r: String)
    ensures
        r@ == guessed_content_type(path@),
        has_no_extension(path@) ==> r@ == "application/octet-stream"@,
{
    mime_guess::from_path(path).first_or_octet_stream().as_ref().to_string()
}

/// What the static resolver answers.
pub struct StaticReply {
    pub status: u16,
    /// The `content-type` header, sent with a found file only.
    pub content_type: Option<String>,
    pub body: Vec<u8>,
}

/// Answers a static request from the outcome of reading its file: the bytes
/// with status 200 and the given content type, or status 404 with nothing
/// when the file could not be read.
pub fn static_reply_with_type(content_type: String, contents: Option<Vec<u8>>) -> (r: StaticReply)
    ensures
        match contents {
            Some(bytes) => {
                &&& r.status == STATUS_OK
                &&& r.content_type == Some(content_type)
                &&& r.body@ == bytes@
            },
            None => {
                &&& r.status == STATUS_NOT_FOUND
                &&& r.content_type is None
                &&& r.body@.len() == 0
            },
        },
{
    match contents {
        Some(bytes) => StaticReply { status: STATUS_OK, content_type: Some(content_type), body: bytes },
        None => StaticReply { status: STATUS_NOT_FOUND, content_type: None, body: Vec::new() },
    }
}

/// Answers a static request for the file at `path` from the outcome of
/// reading it; a found file's content type is inferred from its extension.
pub fn static_reply(path: &str, contents: Option<Vec<u8>>) -> (r: StaticReply)
    ensures
        match contents {
            Some(bytes) => {
                &&& r.status == STATUS_OK
                &&& r.content_type matches Some(t) && t@ == guessed_content_type(path@)
                &&& r.body@ == bytes@
            },
            None => {
                &&& r.status == STATUS_NOT_FOUND
                &&& r.content_type is None
                &&& r.body@.len() == 0
            },
        },
{
    match contents {
        Some(bytes) => static_reply_with_type(guess_content_type(path), Some(bytes)),
        None => StaticReply { status: STATUS_NOT_FOUND, content_type: None, body: Vec::new() },
    }
}

/// The request to send upstream for one proxied request.
pub struct ProxyRequest {
    pub url: String,
    pub headers: HeaderMap,
}

/// Prepares the upstream request: the URL under the configured base and
/// prefix, and the inbound headers without the hop-by-hop ones.
pub fn prepare_proxy_request(
    state: &AppState,
    path: &str,
    query: Option<&str>,
    headers: &HeaderMap,
) -> (r: ProxyRequest)
    ensures
        r.url@ == api_url(state.api_base_url@, state.api_path@, path@, opt_view(query)),
        header_entries(r.headers) == forwarded_request_entries(header_entries(*headers)),
{
    let url = build_api_url(state.api_base_url.as_str(), state.api_path.as_str(), path, query);
    let headers = filter_request_headers(headers);
    ProxyRequest { url, headers }
}

/// What came back from the upstream call.
pub enum UpstreamOutcome {
    /// The backend answered with this status and these headers.
    Responded { status: u16, headers: HeaderMap },
    /// The request could not be completed (refused, name resolution, timeout, ...).
    TransportFailed,
}

/// The status and headers relayed to the client.
pub struct ProxyReply {
    pub status: u16,
    pub headers: HeaderMap,
}

/// Decides the reply to the client: the backend's status unchanged with its
/// headers minus the hop-by-hop ones, or 502 with no headers when the
/// upstream call failed.
pub fn relay_upstream(outcome: &UpstreamOutcome) -> (r: ProxyReply)
    ensures
        match outcome {
            UpstreamOutcome::Responded { status, headers } => {
                &&& r.status == *status
                &&& header_entries(r.headers) == relayed_response_entries(header_entries(*headers))
            },
            UpstreamOutcome::TransportFailed => {
                &&& r.status == STATUS_BAD_GATEWAY
                &&& header_entries(r.headers).dom().is_empty()
            },
        },
{
    match outcome {
        UpstreamOutcome::Responded { status, headers } => ProxyReply {
            status: *status,
            headers: filter_response_headers(headers),
        },
        UpstreamOutcome::TransportFailed => ProxyReply {
            status: STATUS_BAD_GATEWAY,
            headers: empty_headers(),
        },
    }
}

} // verus!
