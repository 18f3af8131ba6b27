//! Inbound sessions: the decision to accept an upgrade request, and the
//! reaction of an accepted session to each frame that arrives.

use vstd::prelude::*;
use crate::text::same_text;

verus! {

/// The only path that upgrades to a session.
pub open spec fn session_path() -> Seq<char> {
    seq!['/', 'w', 's']
}

/// The text of an optional string.
pub open spec fn opt_str_view(o: Option<&str>) -> Option<Seq<char>> {
    match o {
        Some(s) => Some(s@),
        None => None,
    }
}

/// The text of an optional string.
pub open spec fn opt_string_view(o: Option<String>) -> Option<Seq<char>> {
    match o {
        Some(s) => Some(s@),
        None => None,
    }
}

/// The status of a refused request.
pub const BAD_REQUEST: u16 = 400;

/// What the server does with an incoming HTTP request.
pub enum RouteDecision {
    /// Upgrade the request and start a session.
    Upgrade,
    /// Answer with this status and body; no session is created.
    Reject { status: u16, body: String },
}

/// The body of every refused request.
pub open spec fn rejection_body() -> Seq<char> {
    seq!['I', 'n', 'v', 'a', 'l', 'i', 'd', ' ', 'r', 'e', 'q', 'u', 'e', 's', 't']
}

/// A request upgrades exactly when it asks for the session path and carries
/// a `Secret-Key` header equal to the configured secret.
pub open spec fn accepts(path: Seq<char>, secret_header: Option<Seq<char>>, secret: Seq<char>) -> bool {
    path == session_path() && secret_header == Some(secret)
}

/// Decides an incoming request from its path, its `Secret-Key` header (none
/// when absent or not readable as text) and the configured secret.
pub fn route_request(path: &str, secret_header: Option<&str>, secret: &str) -> (r: RouteDecision)
    ensures
        accepts(path@, opt_str_view(secret_header), secret@) ==> r is Upgrade,
        !accepts(path@, opt_str_view(secret_header), secret@) ==> (r matches RouteDecision::Reject { status, body }
            && status == BAD_REQUEST && body@ == rejection_body()),
{
    proof {
        reveal_strlit("/ws");
    }
    assert("/ws"@ =~= session_path());
    let on_path = same_text(path, "/ws");
    let authorised = match secret_header {
        Some(h) => same_text(h, secret),
        None => false,
    };
    if on_path && authorised {
        RouteDecision::Upgrade
    } else {
        let body = "Invalid request".to_owned();
        proof {
            reveal_strlit("Invalid request");
        }
        assert(body@ =~= rejection_body());
        RouteDecision::Reject { status: BAD_REQUEST, body }
    }
}

/// The reason carried by a Close frame.
pub struct CloseReason {
    pub code: u16,
    pub description: Option<String>,
}

/// One frame as a session receives it.
pub enum Frame {
    Text(String),
    Binary(Vec<u8>),
    Ping(Vec<u8>),
    Pong(Vec<u8>),
    Close(Option<CloseReason>),
    Continuation,
    Nop,
    /// The transport failed while reading.
    Error,
}

/// What a session does in answer to one frame.
pub enum Reaction {
    /// Log the text with the peer's host.
    LogText(String),
    /// Log the text a compressed payload held.
    LogDecompressed(String),
    /// Log that a binary payload could not be decompressed, and drop it.
    DropUndecodable,
    /// Answer with a Pong carrying this payload.
    SendPong(Vec<u8>),
    /// Log that a Pong arrived.
    LogPong,
    /// Send a Close with this reason back, then end the session.
    CloseAndStop(Option<CloseReason>),
    /// Log the transport error and end the session.
    Stop,
    /// Nothing to do.
    Ignore,
}

/// The text a gzip stream holds, or none when it is not a valid gzip
/// stream of UTF-8 text.
pub uninterp spec fn gunzip_text(data: Seq<u8>) -> Option<Seq<char>>;

/// Relies on flate2's `bufread::GzDecoder` read to the end as a string: the
/// text of the first gzip member, or an error for a corrupt stream or text
/// that is not UTF-8. The outcome depends on the bytes alone.
#[verifier::external_body]
fn gunzip_to_text(data: &Vec<u8>) -> (r: Option<String>)
    ensures
        r is Some == gunzip_text(data@) is Some,
        r matches Some(t) ==> t@ == gunzip_text(data@)->0,
{
    let mut text = String::new();
    match std::io::Read::read_to_string(&mut flate2::bufread::GzDecoder::new(&data[..]), &mut text) {
        Ok(_) => Some(text),
        Err(_) => None,
    }
}

/// The reaction to a binary frame, given what decompressing it gave.
pub open spec fn decoded_reaction(decoded: Option<Seq<char>>, r: Reaction) -> bool {
    match decoded {
        Some(t) => r matches Reaction::LogDecompressed(s) && s@ == t,
        None => r is DropUndecodable,
    }
}

/// The reaction to a binary payload, given the text decompressing it gave
/// (none when it failed): the text is logged, a failure only drops the payload.
pub fn binary_reaction(decoded: Option<String>) -> (r: Reaction)
    ensures
        decoded_reaction(opt_string_view(decoded), r),
{
    match decoded {
        Some(text) => Reaction::LogDecompressed(text),
        None => Reaction::DropUndecodable,
    }
}

/// The reaction of an open session to a frame other than a binary one.
pub open spec fn frame_reaction(frame: Frame, r: Reaction) -> bool {
    match frame {
        Frame::Text(t) => r == Reaction::LogText(t),
        Frame::Binary(b) => decoded_reaction(gunzip_text(b@), r),
        Frame::Ping(p) => r == Reaction::SendPong(p),
        Frame::Pong(_) => r is LogPong,
        Frame::Close(reason) => r == Reaction::CloseAndStop(reason),
        Frame::Continuation => r is Ignore,
        Frame::Nop => r is Ignore,
        Frame::Error => r is Stop,
    }
}

/// Whether a frame ends the session.
pub open spec fn ends_session(frame: Frame) -> bool {
    frame is Close || frame is Error
}

/// One accepted inbound session, bound to the host that opened it.
pub struct DataWebSocket {
    url: String,
    open: bool,
}

impl DataWebSocket {
    pub closed spec fn host(&self) -> Seq<char> {
        self.url@
    }

    /// Whether the session still takes frames.
    pub closed spec fn is_open(&self) -> bool {
        self.open
    }

    /// A new open session for a peer at `url`.
    pub fn new(url: String) -> (r: Self)
        ensures
            r.host() == url@,
            r.is_open(),
    {
        DataWebSocket { url, open: true }
    }

    /// The host the session was opened from.
    pub fn url(&self) -> (r: &String)
        ensures
            r@ == self.host(),
    {
        &self.url
    }

    /// Whether the session still takes frames.
    pub fn open(&self) -> (r: bool)
        ensures
            r == self.is_open(),
    {
        self.open
    }

    /// Handles one frame. An open session reacts as `frame_reaction` says and
    /// ends on a Close or a transport error; an ended session ignores every
    /// further frame.
    pub fn handle(&mut self, frame: Frame) -> (r: Reaction)
        ensures
            final(self).host() == old(self).host(),
            old(self).is_open() ==> frame_reaction(frame, r),
            !old(self).is_open() ==> r is Ignore,
            final(self).is_open() == (old(self).is_open() && !ends_session(frame)),
    {
        if !self.open {
            return Reaction::Ignore;
        }
        match frame {
            Frame::Text(t) => Reaction::LogText(t),
            Frame::Binary(b) => binary_reaction(gunzip_to_text(&b)),
            Frame::Ping(p) => Reaction::SendPong(p),
            Frame::Pong(_) => Reaction::LogPong,
            Frame::Close(reason) => {
                self.open = false;
                Reaction::CloseAndStop(reason)
            },
            Frame::Continuation => Reaction::Ignore,
            Frame::Nop => Reaction::Ignore,
            Frame::Error => {
                self.open = false;
                Reaction::Stop
            },
        }
    }
}

} // verus!
