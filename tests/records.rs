use halreslib::parser::ParsedUrl;
use halreslib::resource::{make_resource, url_identifier, Resource};

fn https_url(path: &str) -> ParsedUrl {
    ParsedUrl {
        serialized: format!("https://example.com{}", path),
        scheme: "https".to_string(),
        host: Some("example.com".to_string()),
        path: path.to_string(),
    }
}

#[test]
fn blank_record_has_sentinels() {
    let r = Resource::default();
    assert_eq!(r.uri_uuid, "");
    assert_eq!(r.url, "-");
    assert_eq!(r.scheme, "-");
    assert_eq!(r.host, "-");
    assert_eq!(r.path, "-");
    assert_eq!(r.live_status, "1");
    assert_eq!(r.title, "-");
    assert_eq!(r.auto_descr, "-");
    assert_eq!(r.man_descr, "");
    assert_eq!(r.crea_user, "api");
    assert_eq!(r.modi_user, "api");
    assert_eq!(r.crea_time, "");
    assert_eq!(r.modi_time, "");
}

#[test]
fn identifier_is_deterministic() {
    let a = url_identifier("https://example.com/a");
    let b = url_identifier("https://example.com/a");
    assert_eq!(a, b);
}

#[test]
fn identifiers_of_different_urls_differ() {
    let a = url_identifier("https://example.com/a");
    let b = url_identifier("https://example.com/b");
    assert_ne!(a, b);
}

#[test]
fn identifier_is_lowercase_hex_digest() {
    let a = url_identifier("https://example.com/a");
    assert_eq!(a.len(), 64);
    assert!(a.chars().all(|c| c.is_ascii_digit() || ('a'..='f').contains(&c)));
    assert_ne!(a, "https://example.com/a");
    assert_eq!(
        url_identifier(""),
        "af1349b9f5f9a1a6a0404dea36dcc9499bcb25c9adc112b7cc9a93cae41f3262"
    );
}

#[test]
fn record_built_from_url_and_timestamp() {
    let r = make_resource(&https_url("/a"), &"2024-01-01T00:00:00+00:00".to_string());
    assert_eq!(r.url, "https://example.com/a");
    assert_eq!(r.uri_uuid, url_identifier("https://example.com/a"));
    assert_eq!(r.scheme, "https");
    assert_eq!(r.host, "example.com");
    assert_eq!(r.path, "/a");
    assert_eq!(r.live_status, "1");
    assert_eq!(r.title, "-");
    assert_eq!(r.auto_descr, "-");
    assert_eq!(r.man_descr, "");
    assert_eq!(r.crea_user, "api");
    assert_eq!(r.modi_user, "api");
    assert_eq!(r.crea_time, "2024-01-01T00:00:00+00:00");
    assert_eq!(r.modi_time, "2024-01-01T00:00:00+00:00");
}

#[test]
fn record_without_host_stores_sentinel() {
    let u = ParsedUrl {
        serialized: "unix:/run/foo.socket".to_string(),
        scheme: "unix".to_string(),
        host: None,
        path: "/run/foo.socket".to_string(),
    };
    let r = make_resource(&u, &"t".to_string());
    assert_eq!(r.host, "-");
    assert_eq!(r.path, "/run/foo.socket");
}

#[test]
fn same_url_same_identifier_across_timestamps() {
    let a = make_resource(&https_url("/a"), &"t1".to_string());
    let b = make_resource(&https_url("/a"), &"t2".to_string());
    assert_eq!(a.uri_uuid, b.uri_uuid);
}

#[test]
fn row_keeps_field_order() {
    let r = make_resource(&https_url("/a"), &"t".to_string());
    let row = r.to_row();
    assert_eq!(row.len(), 13);
    let expected = vec![
        url_identifier("https://example.com/a"),
        "https://example.com/a".to_string(),
        "https".to_string(),
        "example.com".to_string(),
        "/a".to_string(),
        "1".to_string(),
        "-".to_string(),
        "-".to_string(),
        "".to_string(),
        "api".to_string(),
        "t".to_string(),
        "api".to_string(),
        "t".to_string(),
    ];
    assert_eq!(row, expected);
}

#[test]
fn clone_keeps_fields() {
    let r = make_resource(&https_url("/a"), &"t".to_string());
    let c = r.clone();
    assert_eq!(c.to_row(), r.to_row());
}
