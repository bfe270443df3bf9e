use h1_exchange::headers::HeaderMap;
use h1_exchange::request::{
    host_header_value, prepare_host, HostOutcome, RequestHead, RequestHeadType,
};
use std::rc::Rc;

fn head(host: Option<&[u8]>, port: Option<u16>) -> RequestHead {
    RequestHead {
        headers: HeaderMap::new(),
        uri_host: host.map(|h| h.to_vec()),
        uri_port: port,
    }
}

#[test]
fn host_value_no_port() {
    let v = host_header_value(b"example.com", None);
    assert_eq!(v, b"example.com".to_vec());
}

#[test]
fn host_value_default_http_port() {
    let v = host_header_value(b"example.com", Some(80));
    assert_eq!(v, b"example.com".to_vec());
}

#[test]
fn host_value_default_https_port() {
    let v = host_header_value(b"example.com", Some(443));
    assert_eq!(v, b"example.com".to_vec());
}

#[test]
fn host_value_explicit_port() {
    let v = host_header_value(b"example.com", Some(8080));
    assert_eq!(v, b"example.com:8080".to_vec());
}

#[test]
fn host_value_small_and_large_ports() {
    assert_eq!(host_header_value(b"h", Some(1)), b"h:1".to_vec());
    assert_eq!(host_header_value(b"h", Some(65535)), b"h:65535".to_vec());
    assert_eq!(host_header_value(b"h", Some(100)), b"h:100".to_vec());
    assert_eq!(host_header_value(b"h", Some(0)), b"h:0".to_vec());
}

#[test]
fn prepare_host_inserts_owned() {
    let mut h = RequestHeadType::Owned(head(Some(b"example.com"), Some(8080)));
    let r = prepare_host(&mut h);
    assert!(matches!(r, HostOutcome::Inserted(v) if v == b"example.com:8080".to_vec()));
    assert_eq!(h.header_value(b"host"), Some(b"example.com:8080".to_vec()));
}

#[test]
fn prepare_host_keeps_existing() {
    let mut base = head(Some(b"example.com"), Some(8080));
    base.headers.insert(b"host".to_vec(), b"other.example".to_vec());
    let mut h = RequestHeadType::Owned(base);
    let r = prepare_host(&mut h);
    assert!(matches!(r, HostOutcome::AlreadySet));
    assert_eq!(h.header_value(b"host"), Some(b"other.example".to_vec()));
}

#[test]
fn prepare_host_no_uri_host() {
    let mut h = RequestHeadType::Owned(head(None, None));
    let r = prepare_host(&mut h);
    assert!(matches!(r, HostOutcome::NoUriHost));
    assert_eq!(h.header_value(b"host"), None);
}

#[test]
fn prepare_host_shared_goes_to_overlay() {
    let base = Rc::new(head(Some(b"example.com"), None));
    let mut h = RequestHeadType::Shared(base.clone(), None);
    let r = prepare_host(&mut h);
    assert!(matches!(r, HostOutcome::Inserted(v) if v == b"example.com".to_vec()));
    // the shared base head itself was not touched
    assert!(base.headers.fields.is_empty());
    assert_eq!(h.header_value(b"host"), Some(b"example.com".to_vec()));
}

#[test]
fn prepare_host_shared_respects_overlay_host() {
    let base = Rc::new(head(Some(b"example.com"), None));
    let mut extra = HeaderMap::new();
    extra.insert(b"host".to_vec(), b"overlay.example".to_vec());
    let mut h = RequestHeadType::Shared(base, Some(extra));
    let r = prepare_host(&mut h);
    assert!(matches!(r, HostOutcome::AlreadySet));
    assert_eq!(h.header_value(b"host"), Some(b"overlay.example".to_vec()));
}

#[test]
fn prepare_host_rejects_control_bytes() {
    let mut h = RequestHeadType::Owned(head(Some(b"bad\nhost"), None));
    let r = prepare_host(&mut h);
    assert!(matches!(r, HostOutcome::ValueRejected));
    assert_eq!(h.header_value(b"host"), None);
}

#[test]
fn header_map_insert_shadows() {
    let mut m = HeaderMap::new();
    m.insert(b"accept".to_vec(), b"text/html".to_vec());
    m.insert(b"accept".to_vec(), b"application/json".to_vec());
    assert_eq!(m.value_of(b"accept"), Some(b"application/json".to_vec()));
    assert!(m.contains_key(b"accept"));
    assert!(!m.contains_key(b"host"));
}

#[test]
fn header_map_other_names_untouched() {
    let mut m = HeaderMap::new();
    m.insert(b"accept".to_vec(), b"text/html".to_vec());
    m.insert(b"host".to_vec(), b"example.com".to_vec());
    assert_eq!(m.value_of(b"accept"), Some(b"text/html".to_vec()));
    assert_eq!(m.value_of(b"host"), Some(b"example.com".to_vec()));
}
