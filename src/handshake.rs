//! What an outbound establishment sends: the upgrade target, its headers,
//! and the address the socket is opened to.

use vstd::prelude::*;
use crate::text::{decimal, push_decimal};

verus! {

/// The port a peer is reached on when its address names none.
pub const DEFAULT_PORT: u16 = 443;

/// The upgrade target for a peer: always the `ws` scheme and the `/ws` path,
/// though the socket under it is already encrypted.
pub open spec fn request_uri_text(peer: Seq<char>) -> Seq<char> {
    "ws://"@ + peer + "/ws"@
}

/// The address a socket is opened to, from the host and port of the upgrade
/// target (`localhost` and the default port when absent).
pub open spec fn connect_text(host: Option<Seq<char>>, port: Option<u16>) -> Seq<char> {
    (match host {
        Some(h) => h,
        None => "localhost"@,
    }) + ":"@ + decimal((match port {
        Some(p) => p,
        None => DEFAULT_PORT,
    }) as nat)
}

/// The local address a node announces, on the loopback host.
pub open spec fn local_text(port: u16) -> Seq<char> {
    "127.0.0.1:"@ + decimal(port as nat)
}

/// The upgrade request of an outbound establishment.
pub struct HandshakeRequest {
    pub uri: String,
    /// Header names and values, in the order they are sent.
    pub headers: Vec<(String, String)>,
}

/// Relies on tungstenite's `handshake::client::generate_key`: 16 random
/// bytes in padded base64, so always 24 characters.
#[verifier::external_body]
fn generate_key() -> (r: String)
    ensures
        r@.len() == 24,
{
    tokio_tungstenite::tungstenite::handshake::client::generate_key()
}

/// The upgrade target for `peer`.
pub fn request_uri(peer: &str) -> (r: String)
    ensures
        r@ == request_uri_text(peer@),
{
    let mut s = "ws://".to_owned();
    s.append(peer);
    s.append("/ws");
    s
}

/// The address a node at `port` announces.
pub fn local_address(port: u16) -> (r: String)
    ensures
        r@ == local_text(port),
{
    let mut s = "127.0.0.1:".to_owned();
    push_decimal(&mut s, port as u64);
    s
}

/// The address a socket to a peer is opened to.
pub fn connect_address(host: Option<&str>, port: Option<u16>) -> (r: String)
    ensures
        r@ == connect_text(
            match host {
                Some(h) => Some(h@),
                None => None,
            },
            port,
        ),
{
    let mut s = match host {
        Some(h) => h.to_owned(),
        None => "localhost".to_owned(),
    };
    s.append(":");
    let p = match port {
        Some(p) => p,
        None => DEFAULT_PORT,
    };
    push_decimal(&mut s, p as u64);
    s
}

fn header(name: &str, value: String) -> (r: (String, String))
    ensures
        r.0@ == name@,
        r.1 == value,
{
    (name.to_owned(), value)
}

/// The upgrade request to `peer` from a node announcing `local`, carrying
/// `secret` and a fresh key.
pub fn handshake_request(peer: &str, secret: &str, local: &str) -> (r: HandshakeRequest)
    ensures
        r.uri@ == request_uri_text(peer@),
        r.headers@.len() == 6,
        r.headers@[0].0@ == "Secret-Key"@ && r.headers@[0].1@ == secret@,
        r.headers@[1].0@ == "Host"@ && r.headers@[1].1@ == local@,
        r.headers@[2].0@ == "Connection"@ && r.headers@[2].1@ == "Upgrade"@,
        r.headers@[3].0@ == "Upgrade"@ && r.headers@[3].1@ == "websocket"@,
        r.headers@[4].0@ == "Sec-WebSocket-Version"@ && r.headers@[4].1@ == "13"@,
        r.headers@[5].0@ == "Sec-WebSocket-Key"@ && r.headers@[5].1@.len() == 24,
{
    let mut headers: Vec<(String, String)> = Vec::new();
    headers.push(header("Secret-Key", secret.to_owned()));
    headers.push(header("Host", local.to_owned()));
    headers.push(header("Connection", "Upgrade".to_owned()));
    headers.push(header("Upgrade", "websocket".to_owned()));
    headers.push(header("Sec-WebSocket-Version", "13".to_owned()));
    headers.push(header("Sec-WebSocket-Key", generate_key()));
    HandshakeRequest { uri: request_uri(peer), headers }
}

} // verus!
