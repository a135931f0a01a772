//! The streamed connection: the upgrade request and the read loop's decisions.
//!
//! The caller owns the socket. It asks this module for the upgrade headers,
//! reports the handshake's outcome, and hands over each frame it reads; the
//! answer says whether the frame's text goes on to decoding, is skipped, or
//! ends the loop. A closed connection is never reopened here.

use vstd::prelude::*;
use vstd::string::StringExecFns;
use vstd::utf8::{decode_utf8, valid_utf8};
use crate::text::owned;
use crate::url_utils::{extract_host, host_of};

verus! {

/// One unit read from the connection.
#[derive(Debug, Clone, PartialEq, Eq)]
pub enum Frame {
    Text(String),
    Binary(Vec<u8>),
    Ping,
    Pong,
    Close,
    /// A raw frame of another kind.
    Other,
}

#[derive(Debug, Clone, Copy, PartialEq, Eq, Structural)]
pub enum ConnectionState {
    Disconnected,
    Connecting,
    Connected,
    Closed,
}

/// What the read loop does with a frame.
#[derive(Debug, Clone, PartialEq, Eq)]
pub enum ReadStep {
    /// Decode this text.
    Deliver(String),
    /// Heartbeat or uninterpretable frame: read on.
    Ignore,
    /// Binary data that is not UTF-8: warn and read on.
    DropInvalidUtf8,
    /// The peer closed: leave the loop.
    Stop,
}

/// Relies on `String::from_utf8`: succeeds exactly on valid UTF-8, with the
/// decoded text.
#[verifier::external_body]
fn utf8_text(bytes: Vec<u8>) -> (r: Option<String>)
    ensures
        r is Some <==> valid_utf8(bytes@),
        r matches Some(s) ==> s@ == decode_utf8(bytes@),
{
    String::from_utf8(bytes).ok()
}

/// Relies on tungstenite's `generate_key`: the base64 text of 16 random bytes,
/// which is 24 characters long.
#[verifier::external_body]
fn handshake_key() -> (r: String)
    ensures
        r@.len() == 24,
{
    tokio_tungstenite::tungstenite::handshake::client::generate_key()
}

/// The state after `f` is read in state `s`.
pub open spec fn state_after_frame(s: ConnectionState, f: Frame) -> ConnectionState {
    match f {
        Frame::Close => ConnectionState::Closed,
        _ => s,
    }
}

/// Read-loop state of one connection attempt.
#[derive(Debug)]
pub struct Connection {
    pub state: ConnectionState,
}

impl Connection {
    pub fn new() -> (r: Connection)
        ensures
            r.state == ConnectionState::Disconnected,
    {
        Connection { state: ConnectionState::Disconnected }
    }

    /// The upgrade request is about to be sent.
    pub fn begin_connect(&mut self)
        requires
            old(self).state == ConnectionState::Disconnected,
        ensures
            final(self).state == ConnectionState::Connecting,
    {
        self.state = ConnectionState::Connecting;
    }

    /// The handshake finished; a failed one closes the attempt.
    pub fn on_handshake(&mut self, ok: bool)
        requires
            old(self).state == ConnectionState::Connecting,
        ensures
            final(self).state == if ok {
                ConnectionState::Connected
            } else {
                ConnectionState::Closed
            },
    {
        self.state = if ok {
            ConnectionState::Connected
        } else {
            ConnectionState::Closed
        };
    }

    /// A read or transport error ends the connection.
    pub fn on_transport_error(&mut self)
        ensures
            final(self).state == ConnectionState::Closed,
    {
        self.state = ConnectionState::Closed;
    }

    /// Decides what to do with one frame read while connected.
    pub fn on_frame(&mut self, f: Frame) -> (r: ReadStep)
        requires
            old(self).state == ConnectionState::Connected,
        ensures
            final(self).state == state_after_frame(old(self).state, f),
            match f {
                Frame::Text(t) => r == ReadStep::Deliver(t),
                Frame::Binary(b) => if valid_utf8(b@) {
                    r matches ReadStep::Deliver(t) && t@ == decode_utf8(b@)
                } else {
                    r == ReadStep::DropInvalidUtf8
                },
                Frame::Close => r == ReadStep::Stop,
                _ => r == ReadStep::Ignore,
            },
    {
        match f {
            Frame::Text(t) => ReadStep::Deliver(t),
            Frame::Binary(b) => match utf8_text(b) {
                Some(t) => ReadStep::Deliver(t),
                None => ReadStep::DropInvalidUtf8,
            },
            Frame::Close => {
                self.state = ConnectionState::Closed;
                ReadStep::Stop
            },
            _ => ReadStep::Ignore,
        }
    }
}

/// The `Host` header value: the URL's host, or `localhost` when it has none.
pub open spec fn host_header(url: Seq<char>) -> Seq<char> {
    match host_of(url) {
        Some(h) => h,
        None => "localhost"@,
    }
}

/// `h` is the header `name: value`.
pub open spec fn is_header(h: (String, String), name: Seq<char>, value: Seq<char>) -> bool {
    h.0@ == name && h.1@ == value
}

/// The upgrade headers for `url` with bearer `token` and handshake `key`.
pub open spec fn headers_valid(
    hs: Seq<(String, String)>,
    url: Seq<char>,
    token: Seq<char>,
    key: Seq<char>,
) -> bool {
    &&& hs.len() == 6
    &&& is_header(hs[0], "Authorization"@, "Bearer "@ + token)
    &&& is_header(hs[1], "Host"@, host_header(url))
    &&& is_header(hs[2], "Connection"@, "Upgrade"@)
    &&& is_header(hs[3], "Upgrade"@, "websocket"@)
    &&& is_header(hs[4], "Sec-WebSocket-Version"@, "13"@)
    &&& is_header(hs[5], "Sec-WebSocket-Key"@, key)
}

fn header(name: &str, value: String) -> (r: (String, String))
    ensures
        r.0@ == name@,
        r.1@ == value@,
{
    (owned(name), value)
}

/// The headers of the upgrade request.
pub fn upgrade_headers(url: &str, token: &str, key: &str) -> (r: Vec<(String, String)>)
    ensures
        headers_valid(r@, url@, token@, key@),
{
    let mut hs: Vec<(String, String)> = Vec::new();
    let bearer = String::from_str("Bearer ").concat(token);
    hs.push(header("Authorization", bearer));
    let host = match extract_host(url) {
        Some(h) => owned(h),
        None => owned("localhost"),
    };
    hs.push(header("Host", host));
    hs.push(header("Connection", owned("Upgrade")));
    hs.push(header("Upgrade", owned("websocket")));
    hs.push(header("Sec-WebSocket-Version", owned("13")));
    hs.push(header("Sec-WebSocket-Key", owned(key)));
    hs
}

/// The upgrade request of one connection attempt.
#[derive(Debug)]
pub struct UpgradeRequest {
    pub url: String,
    pub headers: Vec<(String, String)>,
}

/// Builds the upgrade request for `url` with a fresh handshake key.
pub fn upgrade_request(url: &str, token: &str) -> (r: UpgradeRequest)
    ensures
        r.url@ == url@,
        exists|key: Seq<char>| key.len() == 24 && headers_valid(r.headers@, url@, token@, key),
{
    let key = handshake_key();
    let headers = upgrade_headers(url, token, key.as_str());
    UpgradeRequest { url: owned(url), headers }
}

} // verus!
