//! One `/stream` WebSocket connection on the server: binary frames of 16-bit
//! little-endian PCM are gathered into a burst until the client ends it or
//! the buffer passes its cap; each burst is transcribed and the connection
//! stays open for the next one, until the client closes it, reading fails, or
//! it stays silent too long. JSON text frames ask for a model switch or end
//! the burst.
use vstd::prelude::*;
use crate::text::{concat2, opt_chars, str_equals};

verus! {

/// The most audio a burst gathers: one minute of 16 kHz 16-bit mono.
pub const MAX_AUDIO_BYTES: usize = 1_920_000;

/// How long a connection may stay silent before the server drops it: five
/// minutes without a frame.
pub const IDLE_TIMEOUT_SECS: u64 = 300;

/// A frame, or the end of the connection, as the socket delivers it.
pub enum StreamEvent {
    Binary(Vec<u8>),
    Text(String),
    /// The client closed the connection.
    Close,
    /// Reading from the socket failed.
    Error,
    /// No frame came for `IDLE_TIMEOUT_SECS`.
    IdleTimeout,
    /// A ping, pong or other frame without content for the session.
    Other,
}

/// What the session does after an event.
pub enum StreamAction {
    /// Wait for the next frame.
    Continue,
    /// Fetch the model if needed, load it, and report back on the socket.
    SetModel(String),
    /// The burst is over: transcribe what was gathered, then go on
    /// listening on the same connection.
    EndOfStream,
    /// Drop the connection without transcribing.
    Abandon,
}

/// The audio gathered so far.
pub struct StreamSession {
    pub audio: Vec<u8>,
}

/// Named result of parsing `text` as JSON (`serde_json::from_str` into a
/// `serde_json::Value`) and reading its member `key` as a string: `None`
/// when `text` is not JSON, `Some(None)` when the member is missing or not
/// a string, `Some(Some(s))` when it is the string `s`.
pub uninterp spec fn json_member(text: Seq<char>, key: Seq<char>) -> Option<Option<Seq<char>>>;

/// Parses `text` with `serde_json::from_str::<serde_json::Value>` and reads
/// the member `key` with `Value::get` and `Value::as_str`. The contract only
/// names the result.
#[verifier::external_body]
fn json_str_member(text: &str, key: &str) -> (r: Option<Option<String>>)
    ensures
        match r {
            None => json_member(text@, key@) is None,
            Some(m) => json_member(text@, key@) == Some(opt_chars(m)),
        },
{
    match serde_json::from_str::<serde_json::Value>(text) {
        Ok(v) => Some(v.get(key).and_then(|m| m.as_str()).map(|m| m.to_string())),
        Err(_) => None,
    }
}

/// The view of a session action.
pub enum ActionView {
    Continue,
    SetModel(Seq<char>),
    EndOfStream,
    Abandon,
}

pub open spec fn action_view(a: StreamAction) -> ActionView {
    match a {
        StreamAction::Continue => ActionView::Continue,
        StreamAction::SetModel(m) => ActionView::SetModel(m@),
        StreamAction::EndOfStream => ActionView::EndOfStream,
        StreamAction::Abandon => ActionView::Abandon,
    }
}

/// What a text frame asks for: a `set_model` action with a model name, an
/// `end_stream` action, or nothing.
pub open spec fn text_action(text: Seq<char>) -> ActionView {
    match json_member(text, "action"@) {
        Some(Some(action)) => if action == "set_model"@ {
            match json_member(text, "model"@) {
                Some(Some(m)) => ActionView::SetModel(m),
                _ => ActionView::Continue,
            }
        } else if action == "end_stream"@ {
            ActionView::EndOfStream
        } else {
            ActionView::Continue
        },
        _ => ActionView::Continue,
    }
}

/// The sample that two bytes write in little-endian two's complement.
pub open spec fn le_i16(lo: u8, hi: u8) -> int {
    let v = hi as int * 256 + lo as int;
    if v >= 0x8000 {
        v - 0x10000
    } else {
        v
    }
}

/// The 16-bit samples of a byte buffer, pairwise; an odd last byte is left
/// out.
pub open spec fn pcm_samples(b: Seq<u8>) -> Seq<int> {
    Seq::new(b.len() / 2, |i: int| le_i16(b[2 * i], b[2 * i + 1]))
}

impl StreamSession {
    /// A session with nothing gathered yet.
    pub fn new() -> (s: StreamSession)
        ensures
            s.audio@ == Seq::<u8>::empty(),
    {
        StreamSession { audio: Vec::new() }
    }

    /// Takes one event. Binary frames are appended to the audio, and once it
    /// holds more than `MAX_AUDIO_BYTES` the stream ends; a text frame acts as
    /// `text_action` says; a close or a read error abandons the session.
    pub fn on_event(&mut self, ev: StreamEvent) -> (a: StreamAction)
        ensures
            match ev {
                StreamEvent::Binary(d) => final(self).audio@ == old(self).audio@ + d@ && (if (old(
                    self).audio@.len() + d@.len()) > MAX_AUDIO_BYTES {
                    a is EndOfStream
                } else {
                    a is Continue
                }),
                StreamEvent::Text(t) => final(self).audio == old(self).audio && action_view(a)
                    == text_action(t@),
                StreamEvent::Close => final(self).audio == old(self).audio && a is Abandon,
                StreamEvent::Error => final(self).audio == old(self).audio && a is Abandon,
                StreamEvent::IdleTimeout => final(self).audio == old(self).audio && a is Abandon,
                StreamEvent::Other => final(self).audio == old(self).audio && a is Continue,
            },
    {
        match ev {
            StreamEvent::Binary(d) => {
                let mut i: usize = 0;
                let ghost before = self.audio@;
                while i < d.len()
                    invariant
                        i <= d.len(),
                        self.audio@ == before + d@.subrange(0, i as int),
                    decreases d.len() - i,
                {
                    self.audio.push(d[i]);
                    i = i + 1;
                }
                assert(d@.subrange(0, d@.len() as int) =~= d@);
                if self.audio.len() > MAX_AUDIO_BYTES {
                    StreamAction::EndOfStream
                } else {
                    StreamAction::Continue
                }
            },
            StreamEvent::Text(t) => match json_str_member(t.as_str(), "action") {
                Some(Some(action)) => {
                    if str_equals(action.as_str(), "set_model") {
                        match json_str_member(t.as_str(), "model") {
                            Some(Some(m)) => StreamAction::SetModel(m),
                            _ => StreamAction::Continue,
                        }
                    } else if str_equals(action.as_str(), "end_stream") {
                        StreamAction::EndOfStream
                    } else {
                        StreamAction::Continue
                    }
                },
                _ => StreamAction::Continue,
            },
            StreamEvent::Close => StreamAction::Abandon,
            StreamEvent::Error => StreamAction::Abandon,
            StreamEvent::IdleTimeout => StreamAction::Abandon,
            StreamEvent::Other => StreamAction::Continue,
        }
    }

    /// Whether there is audio to transcribe once the stream has ended.
    pub fn has_audio(&self) -> (r: bool)
        ensures
            r == (self.audio@.len() > 0),
    {
        self.audio.len() > 0
    }

    /// Ends a burst: the samples of the gathered audio, if there is any to
    /// transcribe, and an empty buffer for the next burst on the same
    /// connection.
    pub fn finish_burst(&mut self) -> (r: Option<Vec<i16>>)
        ensures
            final(self).audio@ == Seq::<u8>::empty(),
            r is Some <==> old(self).audio@.len() > 0,
            r matches Some(s) ==> s@.len() == pcm_samples(old(self).audio@).len() && forall|i: int|
                0 <= i < s@.len() ==> s@[i] as int == pcm_samples(old(self).audio@)[i],
    {
        let samples = if self.audio.len() > 0 {
            Some(decode_pcm(&self.audio))
        } else {
            None
        };
        self.audio = Vec::new();
        samples
    }

    /// The gathered audio as 16-bit samples.
    pub fn samples(&self) -> (s: Vec<i16>)
        ensures
            s@.len() == pcm_samples(self.audio@).len(),
            forall|i: int| 0 <= i < s@.len() ==> s@[i] as int == pcm_samples(self.audio@)[i],
    {
        decode_pcm(&self.audio)
    }
}

/// Reads little-endian 16-bit samples from bytes, pairwise, as
/// `chunks_exact(2)` with `i16::from_le_bytes` does.
pub fn decode_pcm(b: &Vec<u8>) -> (s: Vec<i16>)
    ensures
        s@.len() == pcm_samples(b@).len(),
        forall|i: int| 0 <= i < s@.len() ==> s@[i] as int == pcm_samples(b@)[i],
{
    let n = b.len() / 2;
    let mut out: Vec<i16> = Vec::new();
    let mut i: usize = 0;
    while i < n
        invariant
            n == b.len() / 2,
            i <= n,
            out@.len() == i,
            forall|j: int| 0 <= j < i ==> out@[j] as int == le_i16(b@[2 * j], b@[2 * j + 1]),
        decreases n - i,
    {
        let lo = b[2 * i];
        let hi = b[2 * i + 1];
        let v: u32 = hi as u32 * 256 + lo as u32;
        let x: i32 = if v >= 0x8000 {
            v as i32 - 0x10000
        } else {
            v as i32
        };
        out.push(x as i16);
        i = i + 1;
    }
    out
}

/// What the server tells the client about a model switch asked for on the
/// socket: `{"status": "success", "message": ...}` or `{"error": ...}`.
pub enum ModelReply {
    Loaded(String),
    Failed(String),
}

/// The view of a model-switch report: `Ok` with the message of a success,
/// `Err` with the error.
pub open spec fn reply_view(r: ModelReply) -> Result<Seq<char>, Seq<char>> {
    match r {
        ModelReply::Loaded(m) => Ok(m@),
        ModelReply::Failed(e) => Err(e@),
    }
}

/// The step after fetching a model asked for on the socket: a failed fetch
/// is reported with its error (`Some`), and nothing is loaded; otherwise the
/// worker is asked to load the model next (`None`).
pub fn model_download_outcome(result: Result<(), String>) -> (r: Option<ModelReply>)
    ensures
        match result {
            Ok(_) => r is None,
            Err(e) => r matches Some(x) && reply_view(x) == Err::<Seq<char>, Seq<char>>(
                "Download failed: "@ + e@,
            ),
        },
{
    match result {
        Ok(_) => None,
        Err(e) => Some(ModelReply::Failed(concat2("Download failed: ", e.as_str()))),
    }
}

/// The report once the worker has tried to load `model`.
pub fn model_load_outcome(model: &str, result: Result<(), String>) -> (r: ModelReply)
    ensures
        reply_view(r) == (match result {
            Ok(_) => Ok::<Seq<char>, Seq<char>>("Successfully loaded "@ + model@),
            Err(e) => Err::<Seq<char>, Seq<char>>("Failed to load model into VRAM: "@ + e@),
        }),
{
    match result {
        Ok(_) => ModelReply::Loaded(concat2("Successfully loaded ", model)),
        Err(e) => ModelReply::Failed(concat2("Failed to load model into VRAM: ", e.as_str())),
    }
}

} // verus!
