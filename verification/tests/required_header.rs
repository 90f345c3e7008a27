use http::header::{HeaderMap, HeaderName, HeaderValue, HOST, USER_AGENT};
use rama::context::{Context, RequestContext};
use rama::required_header::{
    rama_id_header_value, set_required_headers, AddRequiredRequestHeaders,
    AddRequiredRequestHeadersLayer, HeaderMapFull, HttpVersion,
};

fn request_context(host: Option<&str>) -> RequestContext {
    RequestContext { host: host.map(str::to_owned) }
}

fn set(headers: &mut HeaderMap, version: HttpVersion, host: Option<&str>) -> Result<(), HeaderMapFull> {
    let mut ctx = Context::new(());
    set_required_headers(&mut ctx, headers, version, request_context(host))
}

// The response-side checks of this scenario test the hand-on to the inner
// service, which is asynchronous and lives outside the library.
#[test]
fn add_required_request_headers() {
    let uri: http::Uri = "http://www.example.com/".parse().unwrap();
    let mut ctx = Context::new(());
    let mut request_headers = HeaderMap::new();
    let from_request = RequestContext { host: uri.host().map(str::to_owned) };
    set_required_headers(&mut ctx, &mut request_headers, HttpVersion::Http11, from_request).unwrap();
    assert!(request_headers.contains_key(HOST));
    assert!(request_headers.contains_key(USER_AGENT));
}

#[test]
fn host_value_is_the_request_host() {
    let mut headers = HeaderMap::new();
    set(&mut headers, HttpVersion::Http11, Some("www.example.com")).unwrap();
    assert_eq!(headers.get(HOST).unwrap().as_bytes(), b"www.example.com");
    assert_eq!(headers.get_all(HOST).iter().count(), 1);
}

#[test]
fn host_only_on_http11() {
    for version in [HttpVersion::Http09, HttpVersion::Http10, HttpVersion::H2, HttpVersion::H3] {
        let mut headers = HeaderMap::new();
        set(&mut headers, version, Some("www.example.com")).unwrap();
        assert!(!headers.contains_key(HOST));
        assert_eq!(headers.get(USER_AGENT).unwrap(), "rama/0.2.0");
    }
}

#[test]
fn user_agent_is_the_library_identifier() {
    let mut headers = HeaderMap::new();
    set(&mut headers, HttpVersion::H2, None).unwrap();
    assert_eq!(headers.get(USER_AGENT).unwrap().as_bytes(), b"rama/0.2.0");
    assert_eq!(headers.get_all(USER_AGENT).iter().count(), 1);
    assert_eq!(rama_id_header_value().as_bytes(), b"rama/0.2.0");
}

#[test]
fn no_host_without_a_known_host() {
    let mut headers = HeaderMap::new();
    set(&mut headers, HttpVersion::Http11, None).unwrap();
    assert!(!headers.contains_key(HOST));
    assert!(headers.contains_key(USER_AGENT));
    assert_eq!(headers.keys_len(), 1);
}

#[test]
fn invalid_host_is_not_set() {
    let mut headers = HeaderMap::new();
    set(&mut headers, HttpVersion::Http11, Some("bad\nhost")).unwrap();
    assert!(!headers.contains_key(HOST));
    assert!(headers.contains_key(USER_AGENT));
}

#[test]
fn non_ascii_host_is_set_as_its_bytes() {
    let mut headers = HeaderMap::new();
    set(&mut headers, HttpVersion::Http11, Some("bücher.example")).unwrap();
    assert_eq!(headers.get(HOST).unwrap().as_bytes(), "bücher.example".as_bytes());
}

#[test]
fn stored_request_context_is_preferred() {
    let mut ctx = Context::new(());
    ctx.insert_request_context(request_context(Some("stored.example")));
    let mut headers = HeaderMap::new();
    set_required_headers(&mut ctx, &mut headers, HttpVersion::Http11, request_context(Some("uri.example")))
        .unwrap();
    assert_eq!(headers.get(HOST).unwrap(), "stored.example");
    assert_eq!(ctx.request_context(), Some(request_context(Some("stored.example"))));
}

#[test]
fn request_context_is_stored_when_host_is_missing() {
    let mut ctx = Context::new(7u8);
    let mut headers = HeaderMap::new();
    set_required_headers(&mut ctx, &mut headers, HttpVersion::H2, request_context(Some("a.example")))
        .unwrap();
    assert_eq!(ctx.request_context(), Some(request_context(Some("a.example"))));
    assert_eq!(*ctx.state(), 7);
}

#[test]
fn request_context_is_left_alone_when_host_is_present() {
    let mut ctx = Context::new(());
    let mut headers = HeaderMap::new();
    headers.insert(HOST, HeaderValue::from_static("already.example"));
    set_required_headers(&mut ctx, &mut headers, HttpVersion::Http11, request_context(Some("a.example")))
        .unwrap();
    assert_eq!(ctx.request_context(), None);
}

#[test]
fn full_map_with_both_headers_succeeds() {
    let mut headers = map_with_names(24574);
    headers.insert(HOST, HeaderValue::from_static("h.example"));
    headers.insert(USER_AGENT, HeaderValue::from_static("ua"));
    let before = headers.clone();
    set(&mut headers, HttpVersion::Http11, Some("a.example")).unwrap();
    assert_eq!(headers, before);
}

#[test]
fn present_headers_are_kept() {
    let mut headers = HeaderMap::new();
    headers.insert(HOST, HeaderValue::from_static("already.example"));
    headers.insert(USER_AGENT, HeaderValue::from_static("curl/8.0"));
    headers.append(USER_AGENT, HeaderValue::from_static("second"));
    set(&mut headers, HttpVersion::Http11, Some("www.example.com")).unwrap();
    assert_eq!(headers.get(HOST).unwrap(), "already.example");
    let agents: Vec<_> = headers.get_all(USER_AGENT).iter().collect();
    assert_eq!(agents, vec!["curl/8.0", "second"]);
    assert_eq!(headers.keys_len(), 2);
}

#[test]
fn other_headers_are_untouched() {
    let mut headers = HeaderMap::new();
    headers.insert("x-custom", HeaderValue::from_static("value"));
    set(&mut headers, HttpVersion::Http11, Some("www.example.com")).unwrap();
    assert_eq!(headers.get("x-custom").unwrap(), "value");
    assert_eq!(headers.keys_len(), 3);
}

#[test]
fn setting_twice_changes_nothing() {
    let mut once = HeaderMap::new();
    once.insert("accept", HeaderValue::from_static("*/*"));
    set(&mut once, HttpVersion::Http11, Some("www.example.com")).unwrap();
    let mut twice = once.clone();
    set(&mut twice, HttpVersion::Http11, Some("www.example.com")).unwrap();
    assert_eq!(once, twice);
}

fn map_with_names(n: usize) -> HeaderMap {
    let mut headers = HeaderMap::new();
    for i in 0..n {
        let name: HeaderName = format!("x-h{}", i).parse().unwrap();
        headers.insert(name, HeaderValue::from_static("v"));
    }
    headers
}

#[test]
fn large_maps_still_get_the_headers() {
    let mut headers = map_with_names(6553);
    set(&mut headers, HttpVersion::Http11, Some("a.example")).unwrap();
    assert_eq!(headers.get(HOST).unwrap(), "a.example");
    assert!(headers.contains_key(USER_AGENT));
    assert_eq!(headers.keys_len(), 6555);
}

#[test]
fn a_map_at_its_maximal_size_reports_full() {
    let mut headers = map_with_names(24576);
    let before = headers.clone();
    assert_eq!(set(&mut headers, HttpVersion::Http11, Some("a.example")), Err(HeaderMapFull));
    assert_eq!(headers, before);
}

#[test]
fn layer_wraps_the_inner_service() {
    let layer = AddRequiredRequestHeadersLayer::new();
    let service = layer.layer(7u32);
    assert_eq!(*service.get_ref(), 7);
    let _default = AddRequiredRequestHeadersLayer::default();
}

#[test]
fn middleware_accessors() {
    let mut service = AddRequiredRequestHeaders::new(String::from("inner"));
    service.get_mut().push('!');
    assert_eq!(service.get_ref(), "inner!");
    assert_eq!(format!("{:?}", service), "AddRequiredRequestHeaders { inner: \"inner!\" }");
    assert_eq!(service.into_inner(), "inner!");
}
