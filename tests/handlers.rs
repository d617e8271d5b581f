use axum::http::{HeaderMap, HeaderName, HeaderValue};
use local_rs::handlers::{
    build_api_url, filter_request_headers, filter_response_headers, join_static_path,
    prepare_proxy_request, relay_upstream, resolve_static_path, static_reply,
    static_reply_with_type, with_index_file, UpstreamOutcome, STATUS_BAD_GATEWAY,
    STATUS_NOT_FOUND, STATUS_OK,
};
use local_rs::router::{route_request, Route};
use local_rs::state::AppState;
use std::path::PathBuf;

#[test]
fn test_resolve_static_path_simple() {
    let result = resolve_static_path("/var/www", "/foo/bar.html");
    assert_eq!(PathBuf::from(result), PathBuf::from("/var/www/foo/bar.html"));
}

#[test]
fn test_resolve_static_path_strips_leading_slash() {
    let result = resolve_static_path("/var/www", "///multiple/slashes.js");
    assert_eq!(PathBuf::from(result), PathBuf::from("/var/www//multiple/slashes.js"));
}

#[test]
fn test_resolve_static_path_empty() {
    let result = resolve_static_path("/var/www", "/");
    // When path is empty, we just get the static dir (index.html added if it's a dir)
    let expected = if PathBuf::from("/var/www").is_dir() {
        PathBuf::from("/var/www/index.html")
    } else {
        PathBuf::from("/var/www")
    };
    assert_eq!(PathBuf::from(result), expected);
}

#[test]
fn test_filter_request_headers_removes_hop_by_hop() {
    let mut headers = HeaderMap::new();
    headers.insert(HeaderName::from_static("host"), HeaderValue::from_static("example.com"));
    headers.insert(HeaderName::from_static("connection"), HeaderValue::from_static("keep-alive"));
    headers.insert(HeaderName::from_static("x-custom"), HeaderValue::from_static("value"));
    headers.insert(HeaderName::from_static("accept-encoding"), HeaderValue::from_static("gzip"));

    let filtered = filter_request_headers(&headers);

    assert!(!filtered.contains_key("host"));
    assert!(!filtered.contains_key("connection"));
    assert!(!filtered.contains_key("accept-encoding"));
    assert!(filtered.contains_key("x-custom"));
    assert_eq!(filtered.get("x-custom").unwrap(), "value");
}

#[test]
fn test_filter_response_headers_removes_hop_by_hop() {
    let mut headers = HeaderMap::new();
    headers.insert(HeaderName::from_static("transfer-encoding"), HeaderValue::from_static("chunked"));
    headers.insert(HeaderName::from_static("content-type"), HeaderValue::from_static("application/json"));
    headers.insert(HeaderName::from_static("connection"), HeaderValue::from_static("close"));

    let filtered = filter_response_headers(&headers);

    assert!(!filtered.contains_key("transfer-encoding"));
    assert!(!filtered.contains_key("connection"));
    assert!(filtered.contains_key("content-type"));
    assert_eq!(filtered.get("content-type").unwrap(), "application/json");
}

#[test]
fn test_build_api_url_without_query() {
    let url = build_api_url("http://localhost:8081", "/api", "users/123", None);
    assert_eq!(url, "http://localhost:8081/api/users/123");
}

#[test]
fn test_build_api_url_with_query() {
    let url = build_api_url("http://localhost:8081", "/api", "users", Some("page=1&limit=10"));
    assert_eq!(url, "http://localhost:8081/api/users?page=1&limit=10");
}

#[test]
fn test_build_api_url_strips_leading_slash() {
    let url = build_api_url("http://localhost:8081", "/api", "/users/123", None);
    assert_eq!(url, "http://localhost:8081/api/users/123");
}

#[test]
fn build_api_url_never_doubles_the_separator() {
    let plain = build_api_url("http://b", "/pz", "w", None);
    assert_eq!(build_api_url("http://b", "/pz", "//w", None), plain);
    assert_eq!(build_api_url("http://b", "/pz", "///w", None), plain);
    assert_eq!(build_api_url("http://b", "/pz", "", None), "http://b/pz/");
    assert_eq!(build_api_url("http://b", "/pz", "/", Some("")), "http://b/pz/?");
}

#[test]
fn build_api_url_keeps_query_verbatim() {
    let url = build_api_url("http://b", "/pz", "s", Some("q=a%20b&x=/y?z"));
    assert_eq!(url, "http://b/pz/s?q=a%20b&x=/y?z");
}

#[test]
fn join_static_path_is_root_slash_trimmed_path() {
    assert_eq!(join_static_path("/srv", "/a/b.css"), "/srv/a/b.css");
    assert_eq!(join_static_path("/srv", "///a"), "/srv/a");
    assert_eq!(join_static_path("/srv", "/"), "/srv/");
    assert_eq!(join_static_path("/srv", ""), "/srv/");
}

#[test]
fn with_index_file_appends_only_for_directories() {
    assert_eq!(with_index_file("/srv/docs".to_string(), true), "/srv/docs/index.html");
    assert_eq!(with_index_file("/srv/a.js".to_string(), false), "/srv/a.js");
}

fn header_map(pairs: &[(&'static str, &'static str)]) -> HeaderMap {
    let mut headers = HeaderMap::new();
    for (name, value) in pairs {
        headers.append(HeaderName::from_static(name), HeaderValue::from_static(value));
    }
    headers
}

#[test]
fn request_filter_keeps_repeated_headers() {
    let headers = header_map(&[
        ("x-tag", "one"),
        ("keep-alive", "timeout=5"),
        ("x-tag", "two"),
        ("accept", "*/*"),
    ]);
    let filtered = filter_request_headers(&headers);
    let tags: Vec<&str> = filtered.get_all("x-tag").iter().map(|v| v.to_str().unwrap()).collect();
    assert_eq!(tags, vec!["one", "two"]);
    assert_eq!(filtered.get("accept").unwrap(), "*/*");
    assert!(!filtered.contains_key("keep-alive"));
    assert_eq!(filtered.len(), 3);
}

#[test]
fn request_filter_ignores_name_case() {
    let mut headers = HeaderMap::new();
    headers.append(HeaderName::from_bytes(b"Connection").unwrap(), HeaderValue::from_static("close"));
    headers.append(HeaderName::from_bytes(b"HOST").unwrap(), HeaderValue::from_static("h"));
    headers.append(HeaderName::from_bytes(b"X-Custom").unwrap(), HeaderValue::from_static("v"));
    let filtered = filter_request_headers(&headers);
    assert_eq!(filtered.len(), 1);
    assert_eq!(filtered.get("x-custom").unwrap(), "v");
}

#[test]
fn request_filter_keeps_response_only_names() {
    let headers = header_map(&[("transfer-encoding", "chunked"), ("content-encoding", "gzip")]);
    let filtered = filter_request_headers(&headers);
    assert_eq!(filtered.len(), 2);
}

#[test]
fn response_filter_removes_every_hop_by_hop_name() {
    let headers = header_map(&[
        ("transfer-encoding", "chunked"),
        ("content-encoding", "gzip"),
        ("connection", "close"),
        ("keep-alive", "timeout=5"),
        ("host", "kept"),
        ("set-cookie", "a=1"),
        ("set-cookie", "b=2"),
    ]);
    let filtered = filter_response_headers(&headers);
    assert_eq!(filtered.len(), 3);
    assert_eq!(filtered.get("host").unwrap(), "kept");
    let cookies: Vec<&str> =
        filtered.get_all("set-cookie").iter().map(|v| v.to_str().unwrap()).collect();
    assert_eq!(cookies, vec!["a=1", "b=2"]);
}

#[test]
fn request_filter_keeps_value_order_of_each_name() {
    let headers = header_map(&[
        ("accept", "text/html"),
        ("host", "h"),
        ("accept", "application/json"),
        ("accept", "*/*"),
    ]);
    let filtered = filter_request_headers(&headers);
    let accepts: Vec<&str> =
        filtered.get_all("accept").iter().map(|v| v.to_str().unwrap()).collect();
    assert_eq!(accepts, vec!["text/html", "application/json", "*/*"]);
}

#[test]
fn filters_on_empty_headers() {
    let headers = HeaderMap::new();
    assert!(filter_request_headers(&headers).is_empty());
    assert!(filter_response_headers(&headers).is_empty());
}

fn runtime() -> tokio::runtime::Runtime {
    tokio::runtime::Builder::new_current_thread().enable_all().build().unwrap()
}

fn scratch_dir(name: &str) -> PathBuf {
    let dir = PathBuf::from("/tmp/local_rs_tests").join(name);
    runtime().block_on(tokio::fs::create_dir_all(&dir)).unwrap();
    dir
}

fn read_file(path: &str) -> Option<Vec<u8>> {
    runtime().block_on(tokio::fs::read(path)).ok()
}

#[test]
fn static_index_is_served_as_html() {
    let dir = scratch_dir("static_index_is_served_as_html");
    runtime().block_on(tokio::fs::write(dir.join("index.html"), b"<h1>hi</h1>")).unwrap();
    let root = dir.to_str().unwrap();

    let path = resolve_static_path(root, "/");
    assert_eq!(PathBuf::from(&path), dir.join("index.html"));
    let reply = static_reply(&path, read_file(&path));
    assert_eq!(reply.status, STATUS_OK);
    assert_eq!(reply.status, 200);
    assert_eq!(reply.content_type.as_deref(), Some("text/html"));
    assert_eq!(reply.body, b"<h1>hi</h1>".to_vec());
}

#[test]
fn static_missing_file_is_not_found() {
    let dir = scratch_dir("static_missing_file_is_not_found");
    let root = dir.to_str().unwrap();
    let path = resolve_static_path(root, "/no/such/file.txt");
    let reply = static_reply(&path, read_file(&path));
    assert_eq!(reply.status, STATUS_NOT_FOUND);
    assert_eq!(reply.status, 404);
    assert_eq!(reply.content_type, None);
    assert!(reply.body.is_empty());
}

#[test]
fn static_content_type_follows_extension() {
    let css = static_reply("/srv/site.css", Some(vec![1]));
    assert_eq!(css.content_type.as_deref(), Some("text/css"));
    let unknown = static_reply("/srv/blob.qqqzz", Some(vec![2]));
    assert_eq!(unknown.content_type.as_deref(), Some("application/octet-stream"));
    let bare = static_reply("/srv/README", Some(Vec::new()));
    assert_eq!(bare.content_type.as_deref(), Some("application/octet-stream"));
}

#[test]
fn static_reply_with_type_uses_given_type() {
    let found = static_reply_with_type("text/plain".to_string(), Some(b"x".to_vec()));
    assert_eq!(found.status, 200);
    assert_eq!(found.content_type.as_deref(), Some("text/plain"));
    assert_eq!(found.body, b"x".to_vec());
    let missing = static_reply_with_type("text/plain".to_string(), None);
    assert_eq!(missing.status, 404);
    assert_eq!(missing.content_type, None);
}

#[test]
fn unmapped_path_routes_to_static_and_is_not_found() {
    let route = route_request("/pz", "/missing.html");
    let path = match route {
        Route::Static(p) => p,
        Route::Proxy(_) => panic!("expected static route"),
    };
    let dir = scratch_dir("unmapped_path_routes_to_static_and_is_not_found");
    let file = resolve_static_path(dir.to_str().unwrap(), &path);
    let reply = static_reply(&file, read_file(&file));
    assert_eq!(reply.status, 404);
}

fn state(base: &str) -> AppState {
    AppState {
        api_base_url: base.to_string(),
        api_path: "/pz".to_string(),
        static_dir: "/srv".to_string(),
    }
}

#[test]
fn api_request_is_forwarded_to_backend_url() {
    let route = route_request("/pz", "/pz/widgets");
    let rest = match route {
        Route::Proxy(rest) => rest,
        Route::Static(_) => panic!("expected proxy route"),
    };
    assert_eq!(rest, "widgets");
    let request = prepare_proxy_request(&state("http://backend:9000"), &rest, Some("x=1"), &HeaderMap::new());
    assert_eq!(request.url, "http://backend:9000/pz/widgets?x=1");

    let mut upstream = HeaderMap::new();
    upstream.insert(HeaderName::from_static("content-type"), HeaderValue::from_static("text/plain"));
    let reply = relay_upstream(&UpstreamOutcome::Responded { status: 200, headers: upstream });
    assert_eq!(reply.status, 200);
    assert_eq!(reply.headers.get("content-type").unwrap(), "text/plain");
}

#[test]
fn refused_backend_gives_bad_gateway() {
    let reply = relay_upstream(&UpstreamOutcome::TransportFailed);
    assert_eq!(reply.status, STATUS_BAD_GATEWAY);
    assert_eq!(reply.status, 502);
    assert!(reply.headers.is_empty());
}

#[test]
fn backend_status_is_relayed_unchanged() {
    let upstream = header_map(&[("x-error", "backend-failure"), ("transfer-encoding", "chunked")]);
    let reply = relay_upstream(&UpstreamOutcome::Responded { status: 500, headers: upstream });
    assert_eq!(reply.status, 500);
    assert_eq!(reply.headers.get("x-error").unwrap(), "backend-failure");
    assert!(!reply.headers.contains_key("transfer-encoding"));
}

#[test]
fn forwarded_request_drops_connection_keeps_custom() {
    let inbound = header_map(&[("connection", "keep-alive"), ("x-custom", "v")]);
    let request = prepare_proxy_request(&state("http://b"), "anything", None, &inbound);
    assert!(!request.headers.contains_key("connection"));
    assert_eq!(request.headers.get("x-custom").unwrap(), "v");
    assert_eq!(request.url, "http://b/pz/anything");
}
