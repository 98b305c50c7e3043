//! The client's side of the `/stream` WebSocket: where it connects, when a
//! connection is opened and closed (on demand, kept open between bursts,
//! closed after a minute without dictation, reopened after a loss), what each
//! recorded chunk is sent as, and what each server message means.
use vstd::prelude::*;
use crate::text::{opt_chars, owned};

verus! {

/// A control message from the client (`{"action": ..., "model": ...}`).
pub struct ClientMessage {
    pub action: String,
    pub model: Option<String>,
}

/// The client's connection settings.
pub struct NetworkClient {
    pub ws_url: String,
}

/// Why the client cannot connect.
#[derive(Clone, Copy, Debug, PartialEq, Eq, Structural)]
pub enum NetworkError {
    /// The configured address is not an absolute URL.
    InvalidUrl,
}

#[verifier::external_type_specification]
#[verifier::external_body]
pub struct ExUrlParseError(url::ParseError);

/// Named result of `url::Url::parse` followed by `Url::as_str`: the
/// serialization of the URL that `input` writes, or `None` when `input` is
/// not an absolute URL.
pub uninterp spec fn url_serialization(input: Seq<char>) -> Option<Seq<char>>;

/// Parses an absolute URL with `url::Url::parse` and gives its
/// serialization (`Url::as_str`); the contract only names the result.
#[verifier::external_body]
fn parse_url(input: &str) -> (r: Result<String, url::ParseError>)
    ensures
        r is Ok <==> url_serialization(input@) is Some,
        r matches Ok(s) ==> Some(s@) == url_serialization(input@),
{
    match url::Url::parse(input) {
        Ok(u) => Ok(u.as_str().to_string()),
        Err(e) => Err(e),
    }
}

impl ClientMessage {
    /// The message that ends a recording burst: action `end_stream`, no
    /// model.
    pub fn end_stream() -> (m: ClientMessage)
        ensures
            m.action@ == "end_stream"@,
            m.model is None,
    {
        ClientMessage { action: owned("end_stream"), model: None }
    }
}

/// What to send for one recorded chunk.
pub enum OutboundFrame {
    /// The `end_stream` control message, as a text frame.
    EndStream(ClientMessage),
    /// The chunk, as a binary frame.
    Audio(Vec<u8>),
}

/// What a message from the server means to the client.
pub enum Inbound {
    /// A final transcript to type or copy.
    Transcript(String),
    /// A status to show (such as model download progress).
    Status(String),
    /// Nothing to act on.
    Ignore,
}

/// The view of an inbound message's meaning.
pub enum InboundView {
    Transcript(Seq<char>),
    Status(Seq<char>),
    Ignore,
}

pub open spec fn inbound_view(i: Inbound) -> InboundView {
    match i {
        Inbound::Transcript(t) => InboundView::Transcript(t@),
        Inbound::Status(s) => InboundView::Status(s@),
        Inbound::Ignore => InboundView::Ignore,
    }
}

/// A message marked final delivers its text (if it has any); any other
/// message with a status reports the status.
pub open spec fn inbound_meaning(
    text: Option<Seq<char>>,
    is_final: Option<bool>,
    status: Option<Seq<char>>,
) -> InboundView {
    if is_final == Some(true) {
        match text {
            Some(t) => InboundView::Transcript(t),
            None => InboundView::Ignore,
        }
    } else {
        match status {
            Some(s) => InboundView::Status(s),
            None => InboundView::Ignore,
        }
    }
}

impl NetworkClient {
    /// A client that connects to `ws_url`.
    pub fn new(ws_url: &str) -> (c: NetworkClient)
        ensures
            c.ws_url@ == ws_url@,
    {
        NetworkClient { ws_url: owned(ws_url) }
    }

    /// The address to connect to: the configured URL as `url` writes it, or
    /// an error when it is not an absolute URL.
    pub fn endpoint(&self) -> (r: Result<String, NetworkError>)
        ensures
            match url_serialization(self.ws_url@) {
                Some(s) => r matches Ok(e) && e@ == s,
                None => r == Err::<String, NetworkError>(NetworkError::InvalidUrl),
            },
    {
        match parse_url(self.ws_url.as_str()) {
            Ok(s) => Ok(s),
            Err(_) => Err(NetworkError::InvalidUrl),
        }
    }

    /// What a recorded chunk is sent as: an empty chunk marks the end of a
    /// burst and becomes the `end_stream` message; any other goes out as
    /// audio, unchanged.
    pub fn frame_for_chunk(chunk: Vec<u8>) -> (f: OutboundFrame)
        ensures
            chunk@.len() == 0 ==> (f matches OutboundFrame::EndStream(m) && m.action@
                == "end_stream"@ && m.model is None),
            chunk@.len() > 0 ==> (f matches OutboundFrame::Audio(b) && b@ == chunk@),
    {
        if chunk.len() == 0 {
            OutboundFrame::EndStream(ClientMessage::end_stream())
        } else {
            OutboundFrame::Audio(chunk)
        }
    }

    /// What a message from the server means, from its `text`, `is_final`
    /// and `status` members.
    pub fn route_server_message(
        text: Option<String>,
        is_final: Option<bool>,
        status: Option<String>,
    ) -> (r: Inbound)
        ensures
            inbound_view(r) == inbound_meaning(opt_chars(text), is_final, opt_chars(status)),
    {
        if is_final == Some(true) {
            match text {
                Some(t) => Inbound::Transcript(t),
                None => Inbound::Ignore,
            }
        } else {
            match status {
                Some(s) => Inbound::Status(s),
                None => Inbound::Ignore,
            }
        }
    }
}

/// How long an open connection may stay without a recorded chunk before
/// the client closes it.
pub const IDLE_CLOSE_SECS: u64 = 60;

/// Whether a connection to the server is open.
pub struct Link {
    pub connected: bool,
}

/// A chunk that arrives on `l` first opens a connection.
pub open spec fn chunk_needs_connect(l: Link) -> bool {
    !l.connected
}

/// `after` is `before` once its connection ended, with the status update
/// that this reports.
pub open spec fn closed_after(before: Link, after: Link, status: Option<Seq<char>>) -> bool {
    &&& !after.connected
    &&& status == (if before.connected {
        Some("ws_disconnected"@)
    } else {
        None
    })
}

/// What to do with a recorded chunk.
pub struct ChunkPlan {
    /// Open a connection before sending (none is open).
    pub connect_first: bool,
    pub frame: OutboundFrame,
}

impl Link {
    /// No connection yet: the first chunk opens one.
    pub fn new() -> (l: Link)
        ensures
            !l.connected,
    {
        Link { connected: false }
    }

    /// A recorded chunk: a connection is opened first when none is, then the
    /// chunk is sent as `frame_for_chunk` says.
    pub fn on_chunk(&self, chunk: Vec<u8>) -> (p: ChunkPlan)
        ensures
            p.connect_first == chunk_needs_connect(*self),
            chunk@.len() == 0 ==> (p.frame matches OutboundFrame::EndStream(m) && m.action@
                == "end_stream"@ && m.model is None),
            chunk@.len() > 0 ==> (p.frame matches OutboundFrame::Audio(b) && b@ == chunk@),
    {
        ChunkPlan { connect_first: !self.connected, frame: NetworkClient::frame_for_chunk(chunk) }
    }

    /// The outcome of opening a connection: on success the link is open and
    /// the tray is told `ws_connected`; on failure it stays closed (the chunk
    /// that asked for it is lost, and the next one tries again).
    pub fn on_connect_result(&mut self, ok: bool) -> (status: Option<String>)
        ensures
            final(self).connected == (old(self).connected || ok),
            ok ==> opt_chars(status) == Some("ws_connected"@),
            !ok ==> status is None,
    {
        if ok {
            self.connected = true;
            Some(owned("ws_connected"))
        } else {
            None
        }
    }

    /// Whether the idle timer runs: only while a connection is open.
    pub fn idle_timer_armed(&self) -> (r: bool)
        ensures
            r == self.connected,
    {
        self.connected
    }

    /// `IDLE_CLOSE_SECS` passed without a chunk: an open connection is to be
    /// closed (`true`), and the link is closed with the status update that
    /// this reports.
    pub fn on_idle(&mut self) -> (r: (bool, Option<String>))
        ensures
            r.0 == old(self).connected,
            closed_after(*old(self), *final(self), opt_chars(r.1)),
    {
        let was_open = self.connected;
        let status = self.on_closed();
        (was_open, status)
    }

    /// The connection ended (closed for idleness, closed by the server, or
    /// a send failed): the link is closed, and the tray is told
    /// `ws_disconnected` if it was open.
    pub fn on_closed(&mut self) -> (status: Option<String>)
        ensures
            closed_after(*old(self), *final(self), opt_chars(status)),
    {
        if self.connected {
            self.connected = false;
            Some(owned("ws_disconnected"))
        } else {
            None
        }
    }
}

/// After a connection ends, however it ends, the next chunk opens a new
/// one: a lost connection is recovered on the next dictation.
pub proof fn law_reconnect_after_close(before: Link, after: Link, status: Option<Seq<char>>)
    requires
        closed_after(before, after, status),
    ensures
        chunk_needs_connect(after),
{
}

} // verus!
