use proxy_engine::failure::Failure;
use proxy_engine::parse::{Method, ParsedRequest};
use proxy_engine::resolve::resolve_target;

fn request(method: Method, target: &[u8]) -> ParsedRequest {
    ParsedRequest { method, target: target.to_vec(), raw: target.to_vec() }
}

#[test]
fn connect_host_and_port_unchanged() {
    let t = resolve_target(&request(Method::Connect, b"example.org:443")).unwrap();
    assert_eq!(t.host, b"example.org".to_vec());
    assert_eq!(t.port, 443);
}

#[test]
fn connect_any_port_in_range() {
    let t = resolve_target(&request(Method::Connect, b"h:1")).unwrap();
    assert_eq!(t.host, b"h".to_vec());
    assert_eq!(t.port, 1);
    let t = resolve_target(&request(Method::Connect, b"h:65535")).unwrap();
    assert_eq!(t.port, 65535);
}

#[test]
fn connect_without_colon_rejected() {
    let r = resolve_target(&request(Method::Connect, b"example.org"));
    assert_eq!(r.unwrap_err(), Failure::MissingConnectPort);
}

#[test]
fn connect_empty_host_rejected() {
    let r = resolve_target(&request(Method::Connect, b":443"));
    assert_eq!(r.unwrap_err(), Failure::MissingConnectHost);
}

#[test]
fn connect_empty_port_rejected() {
    let r = resolve_target(&request(Method::Connect, b"example.org:"));
    assert_eq!(r.unwrap_err(), Failure::MissingConnectPort);
}

#[test]
fn connect_non_decimal_port_rejected() {
    let r = resolve_target(&request(Method::Connect, b"example.org:https"));
    assert_eq!(r.unwrap_err(), Failure::InvalidConnectPort);
}

#[test]
fn connect_second_colon_rejected() {
    let r = resolve_target(&request(Method::Connect, b"example.org:443:1"));
    assert_eq!(r.unwrap_err(), Failure::InvalidConnectPort);
}

#[test]
fn connect_port_zero_rejected() {
    let r = resolve_target(&request(Method::Connect, b"example.org:0"));
    assert_eq!(r.unwrap_err(), Failure::InvalidConnectPort);
}

#[test]
fn connect_port_above_range_rejected() {
    let r = resolve_target(&request(Method::Connect, b"example.org:65536"));
    assert_eq!(r.unwrap_err(), Failure::InvalidConnectPort);
    let r = resolve_target(&request(Method::Connect, b"example.org:999999999999"));
    assert_eq!(r.unwrap_err(), Failure::InvalidConnectPort);
}

#[test]
fn url_explicit_port_kept() {
    let t = resolve_target(&request(Method::Get, b"http://example.org:8080/path")).unwrap();
    assert_eq!(t.host, b"example.org".to_vec());
    assert_eq!(t.port, 8080);
}

#[test]
fn url_http_defaults_to_80() {
    let t = resolve_target(&request(Method::Get, b"http://example.org/path")).unwrap();
    assert_eq!(t.host, b"example.org".to_vec());
    assert_eq!(t.port, 80);
}

#[test]
fn url_https_defaults_to_443() {
    let t = resolve_target(&request(Method::Post, b"https://example.org/")).unwrap();
    assert_eq!(t.host, b"example.org".to_vec());
    assert_eq!(t.port, 443);
}

#[test]
fn url_unknown_scheme_without_port_rejected() {
    let r = resolve_target(&request(Method::Get, b"foo://example.com/"));
    assert_eq!(r.unwrap_err(), Failure::MissingPort);
}

#[test]
fn url_unknown_scheme_with_port_kept() {
    let t = resolve_target(&request(Method::Get, b"foo://example.com:1456/")).unwrap();
    assert_eq!(t.host, b"example.com".to_vec());
    assert_eq!(t.port, 1456);
}

#[test]
fn relative_target_rejected() {
    let r = resolve_target(&request(Method::Get, b"/path"));
    assert_eq!(r.unwrap_err(), Failure::MalformedUrl);
}

#[test]
fn garbage_target_rejected() {
    let r = resolve_target(&request(Method::Get, b"http://exa mple.org/"));
    assert_eq!(r.unwrap_err(), Failure::MalformedUrl);
}

#[test]
fn hostless_url_rejected() {
    let r = resolve_target(&request(Method::Get, b"data:text/plain,Stuff"));
    assert_eq!(r.unwrap_err(), Failure::MissingHost);
}

#[test]
fn url_port_zero_rejected() {
    let r = resolve_target(&request(Method::Get, b"http://example.org:0/"));
    assert_eq!(r.unwrap_err(), Failure::MissingPort);
}

#[test]
fn url_host_is_normalised_not_echoed() {
    let t = resolve_target(&request(Method::Get, b"http://EXAMPLE.org:81/x")).unwrap();
    assert_eq!(t.host, b"example.org".to_vec());
    assert_eq!(t.port, 81);
}

#[test]
fn resolving_twice_yields_the_same() {
    let req = request(Method::Get, b"https://example.org:8443/a?b=c");
    let a = resolve_target(&req).unwrap();
    let b = resolve_target(&req).unwrap();
    assert_eq!(a.host, b.host);
    assert_eq!(a.port, b.port);
    assert_eq!(req.target, b"https://example.org:8443/a?b=c".to_vec());
}
