use wsprobe::{
    compression_headers, compression_request_headers, extension_line, Target,
    REQUESTED_EXTENSION,
};

#[test]
fn request_header_fields_in_order() {
    let headers = compression_headers("localhost", "AQIDBAUGBwgJCgsMDQ4PEA==");
    let names: Vec<&str> = headers.iter().map(|(n, _)| n.as_str()).collect();
    assert_eq!(
        names,
        vec![
            "Host",
            "Connection",
            "Upgrade",
            "Sec-WebSocket-Version",
            "Sec-WebSocket-Key",
            "Sec-WebSocket-Extensions",
        ]
    );
    assert_eq!(headers[0].1, "localhost");
    assert_eq!(headers[1].1, "Upgrade");
    assert_eq!(headers[2].1, "websocket");
    assert_eq!(headers[3].1, "13");
    assert_eq!(headers[4].1, "AQIDBAUGBwgJCgsMDQ4PEA==");
    assert_eq!(headers[5].1, "permessage-deflate");
}

#[test]
fn fresh_request_carries_a_24_char_key() {
    let headers = compression_request_headers("example.com");
    assert_eq!(headers.len(), 6);
    assert_eq!(headers[0].1, "example.com");
    assert_eq!(headers[4].0, "Sec-WebSocket-Key");
    assert_eq!(headers[4].1.len(), 24);
    assert_eq!(headers[5].1, REQUESTED_EXTENSION);
}

#[test]
fn fresh_keys_differ_between_attempts() {
    let first = compression_request_headers("example.com");
    let second = compression_request_headers("example.com");
    assert_ne!(first[4].1, second[4].1);
}

#[test]
fn advertised_extension_is_reported_verbatim() {
    let line = extension_line(Some("permessage-deflate"));
    assert_eq!(line, "Extensions: permessage-deflate");
}

#[test]
fn absent_extension_reports_fixed_line() {
    assert_eq!(extension_line(None), "No extensions in response");
}

#[test]
fn absent_extension_report_is_stable_across_invocations() {
    let first = extension_line(None);
    let second = extension_line(None);
    let third = extension_line(None);
    assert_eq!(first, second);
    assert_eq!(second, third);
}

#[test]
fn host_header_uses_url_host() {
    let target = Target {
        url: String::from("ws://example.com/chat"),
        host: Some(String::from("example.com")),
    };
    assert_eq!(target.host_header(), "example.com");
}

#[test]
fn host_header_falls_back_to_localhost() {
    let target = Target { url: String::from("ws://localhost:9001"), host: None };
    assert_eq!(target.host_header(), "localhost");
}
