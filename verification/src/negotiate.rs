//! Compression negotiation: the handshake request that asks for the
//! `permessage-deflate` extension, and the report on whether the response
//! advertised one.

use vstd::prelude::*;
use vstd::string::StringExecFns;

verus! {

/// The WebSocket extension this probe requests during the handshake.
pub const REQUESTED_EXTENSION: &'static str = "permessage-deflate";

/// Relies on tokio_tungstenite::tungstenite::handshake::client::generate_key
/// for the Sec-WebSocket-Key value: the base64 text of a freshly drawn random
/// 16-byte nonce, which is always 24 characters long. Nothing more is assumed
/// of it, since the value differs from call to call.
#[verifier::external_body]
fn fresh_key() -> (key: String)
    ensures
        key@.len() == 24,
{
    tokio_tungstenite::tungstenite::handshake::client::generate_key()
}

/// The handshake header fields of the compression probe, in request order,
/// for a given host and Sec-WebSocket-Key value.
pub fn compression_headers(host: &str, key: &str) -> (h: Vec<(String, String)>)
    ensures
        h@.len() == 6,
        h@[0].0@ == "Host"@ && h@[0].1@ == host@,
        h@[1].0@ == "Connection"@ && h@[1].1@ == "Upgrade"@,
        h@[2].0@ == "Upgrade"@ && h@[2].1@ == "websocket"@,
        h@[3].0@ == "Sec-WebSocket-Version"@ && h@[3].1@ == "13"@,
        h@[4].0@ == "Sec-WebSocket-Key"@ && h@[4].1@ == key@,
        h@[5].0@ == "Sec-WebSocket-Extensions"@ && h@[5].1@ == REQUESTED_EXTENSION@,
{
    let mut h: Vec<(String, String)> = Vec::new();
    h.push(("Host".to_owned(), host.to_owned()));
    h.push(("Connection".to_owned(), "Upgrade".to_owned()));
    h.push(("Upgrade".to_owned(), "websocket".to_owned()));
    h.push(("Sec-WebSocket-Version".to_owned(), "13".to_owned()));
    h.push(("Sec-WebSocket-Key".to_owned(), key.to_owned()));
    h.push(("Sec-WebSocket-Extensions".to_owned(), REQUESTED_EXTENSION.to_owned()));
    h
}

/// The handshake header fields of the compression probe with a fresh random
/// key: whatever key came back, it is 24 characters long and sits in the
/// Sec-WebSocket-Key field; every other field is fixed.
pub fn compression_request_headers(host: &str) -> (h: Vec<(String, String)>)
    ensures
        h@.len() == 6,
        h@[0].0@ == "Host"@ && h@[0].1@ == host@,
        h@[1].0@ == "Connection"@ && h@[1].1@ == "Upgrade"@,
        h@[2].0@ == "Upgrade"@ && h@[2].1@ == "websocket"@,
        h@[3].0@ == "Sec-WebSocket-Version"@ && h@[3].1@ == "13"@,
        h@[4].0@ == "Sec-WebSocket-Key"@ && h@[4].1@.len() == 24,
        h@[5].0@ == "Sec-WebSocket-Extensions"@ && h@[5].1@ == REQUESTED_EXTENSION@,
{
    let key = fresh_key();
    compression_headers(host, key.as_str())
}

/// The line the compression probe reports: the negotiated extension header
/// value when the response carries one, a fixed no-extensions line when it
/// does not.
pub open spec fn spec_extension_line(header: Option<Seq<char>>) -> Seq<char> {
    match header {
        Some(v) => "Extensions: "@ + v,
        None => "No extensions in response"@,
    }
}

/// Report the negotiation outcome for the response's extension header.
pub fn extension_line(header: Option<&str>) -> (line: String)
    ensures
        line@ == spec_extension_line(
            match header {
                Some(h) => Some(h@),
                None => None,
            },
        ),
{
    match header {
        Some(h) => {
            let mut s = "Extensions: ".to_owned();
            s.append(h);
            s
        },
        None => "No extensions in response".to_owned(),
    }
}

/// A server that never advertises an extension is reported identically on
/// every invocation of the compression probe: the report depends on the
/// response header alone, and for an absent header it is one fixed line.
pub proof fn lemma_absent_extension_reports_agree(a: Option<Seq<char>>, b: Option<Seq<char>>)
    requires
        a is None,
        b is None,
    ensures
        spec_extension_line(a) == spec_extension_line(b),
{
}

} // verus!
