//! Wire protocol of the relay.
//!
//! Upstream-bound traffic is JSON event texts: raw client audio is wrapped
//! as a base64 payload in an append event, and a committed turn is the
//! commit event followed by a response-create event. Client-bound traffic
//! is classified from the upstream JSON: audio deltas are decoded to binary
//! frames, finished transcripts drive the conversation state machine, and
//! everything else passes through verbatim.

use vstd::prelude::*;
use vstd::string::StringExecFns;
use crate::codec::b64_encoding;
use crate::codec::b64_decoding;
use crate::codec::json_str_field;
use crate::codec::json_quoted;
use crate::codec::encode_base64;
use crate::codec::decode_base64;
use crate::codec::json_string_field;
use crate::codec::quote_json_string;

verus! {

/// Sample rate, in hertz, of the raw PCM16 mono audio carried in binary
/// frames between the client and the relay. Fixed here as the wire
/// contract for both sides.
pub const SAMPLE_RATE_HZ: u32 = 48000;

/// One message crossing either socket boundary.
pub enum Frame {
    /// Raw PCM16 mono audio at [`SAMPLE_RATE_HZ`].
    Binary(Vec<u8>),
    /// A JSON event or a control token.
    Text(String),
}

/// Mathematical image of a [`Frame`].
pub enum FrameView {
    Binary(Seq<u8>),
    Text(Seq<char>),
}

impl View for Frame {
    type V = FrameView;

    open spec fn view(&self) -> FrameView {
        match self {
            Frame::Binary(b) => FrameView::Binary(b@),
            Frame::Text(t) => FrameView::Text(t@),
        }
    }
}

/// The append event wrapping one base64-rendered audio payload.
pub open spec fn spec_append_event(b64: Seq<char>) -> Seq<char> {
    "{\"type\":\"input_audio_buffer.append\",\"audio\":\""@ + b64 + "\"}"@
}

/// The event that finalizes the buffered audio segment upstream.
pub open spec fn spec_commit_event() -> Seq<char> {
    "{\"type\":\"input_audio_buffer.commit\"}"@
}

/// The event that asks the upstream for a spoken response.
pub open spec fn spec_response_create_event() -> Seq<char> {
    "{\"type\":\"response.create\",\"response\":{\"modalities\":[\"text\",\"audio\"],\"instructions\":\"Follow the Feynman tutor protocol.\"}}"@
}

/// The session configuration event around a quoted system prompt.
pub open spec fn spec_session_update_event(prompt: Seq<char>) -> Seq<char> {
    "{\"type\":\"session.update\",\"session\":{\"modalities\":[\"text\",\"audio\"],\"instructions\":"@
        + json_quoted(prompt)
        + ",\"voice\":\"alloy\",\"input_audio_format\":\"pcm16\",\"output_audio_format\":\"pcm16\",\"turn_detection\":{\"type\":\"server_vad\",\"threshold\":0.5,\"prefix_padding_ms\":300,\"silence_duration_ms\":200,\"create_response\":true,\"interrupt_response\":true}}}"@
}

/// Wrap one raw audio frame as an append event text.
pub fn append_event(audio: &[u8]) -> (r: String)
    requires
        audio@.len() <= usize::MAX / 2,
    ensures
        r@ == spec_append_event(b64_encoding(audio@)),
        b64_decoding(b64_encoding(audio@)) == Some(audio@),
{
    let b64 = encode_base64(audio);
    let mut r = String::from_str("{\"type\":\"input_audio_buffer.append\",\"audio\":\"");
    r.append(b64.as_str());
    r.append("\"}");
    proof {
        assert(r@ =~= spec_append_event(b64_encoding(audio@)));
    }
    r
}

/// The commit event text.
pub fn commit_event() -> (r: String)
    ensures
        r@ == spec_commit_event(),
{
    String::from_str("{\"type\":\"input_audio_buffer.commit\"}")
}

/// The response-create event text.
pub fn response_create_event() -> (r: String)
    ensures
        r@ == spec_response_create_event(),
{
    String::from_str(
        "{\"type\":\"response.create\",\"response\":{\"modalities\":[\"text\",\"audio\"],\"instructions\":\"Follow the Feynman tutor protocol.\"}}",
    )
}

/// The session configuration event text carrying the system prompt.
pub fn session_update_event(system_prompt: &str) -> (r: String)
    ensures
        r@ == spec_session_update_event(system_prompt@),
{
    let quoted = quote_json_string(system_prompt);
    let mut r = String::from_str(
        "{\"type\":\"session.update\",\"session\":{\"modalities\":[\"text\",\"audio\"],\"instructions\":",
    );
    r.append(quoted.as_str());
    r.append(
        ",\"voice\":\"alloy\",\"input_audio_format\":\"pcm16\",\"output_audio_format\":\"pcm16\",\"turn_detection\":{\"type\":\"server_vad\",\"threshold\":0.5,\"prefix_padding_ms\":300,\"silence_duration_ms\":200,\"create_response\":true,\"interrupt_response\":true}}}",
    );
    proof {
        assert(r@ =~= spec_session_update_event(system_prompt@));
    }
    r
}

/// What one upstream text frame means to the relay.
pub enum UpstreamEvent {
    /// An audio delta whose payload decoded: forward the bytes as a binary
    /// frame.
    AudioDelta(Vec<u8>),
    /// An audio delta with a missing or undecodable payload: drop it, the
    /// session goes on.
    MalformedDelta,
    /// A finished transcript: its text (when present) drives the
    /// conversation state machine, and the original event is still
    /// forwarded.
    TranscriptDone(Option<String>),
    /// Anything else, recognized or not: forward the original text
    /// verbatim, never drop it silently.
    Other,
}

/// Mathematical image of an [`UpstreamEvent`].
pub enum UpstreamEventView {
    AudioDelta(Seq<u8>),
    MalformedDelta,
    TranscriptDone(Option<Seq<char>>),
    Other,
}

impl View for UpstreamEvent {
    type V = UpstreamEventView;

    open spec fn view(&self) -> UpstreamEventView {
        match self {
            UpstreamEvent::AudioDelta(b) => UpstreamEventView::AudioDelta(b@),
            UpstreamEvent::MalformedDelta => UpstreamEventView::MalformedDelta,
            UpstreamEvent::TranscriptDone(t) => UpstreamEventView::TranscriptDone(
                match t {
                    Some(s) => Some(s@),
                    None => None,
                },
            ),
            UpstreamEvent::Other => UpstreamEventView::Other,
        }
    }
}

/// How an upstream text frame is classified, over the JSON field reader and
/// the base64 decoding.
pub open spec fn spec_classify(text: Seq<char>) -> UpstreamEventView {
    match json_str_field(text, "type"@) {
        Option::None => UpstreamEventView::Other,
        Option::Some(tag) => if tag == "response.audio.delta"@ {
            match json_str_field(text, "delta"@) {
                Option::None => UpstreamEventView::MalformedDelta,
                Option::Some(payload) => match b64_decoding(payload) {
                    Option::Some(bytes) => UpstreamEventView::AudioDelta(bytes),
                    Option::None => UpstreamEventView::MalformedDelta,
                },
            }
        } else if tag == "response.audio_transcript.done"@ {
            UpstreamEventView::TranscriptDone(json_str_field(text, "transcript"@))
        } else {
            UpstreamEventView::Other
        },
    }
}

/// Decode one upstream text frame into what the relay should do with it.
pub fn classify_upstream_text(text: &str) -> (ev: UpstreamEvent)
    ensures
        ev@ == spec_classify(text@),
{
    let tag = match json_string_field(text, "type") {
        Some(tag) => tag,
        None => {
            return UpstreamEvent::Other;
        },
    };
    if tag == String::from_str("response.audio.delta") {
        match json_string_field(text, "delta") {
            None => UpstreamEvent::MalformedDelta,
            Some(payload) => match decode_base64(payload.as_str()) {
                Some(bytes) => UpstreamEvent::AudioDelta(bytes),
                None => UpstreamEvent::MalformedDelta,
            },
        }
    } else if tag == String::from_str("response.audio_transcript.done") {
        UpstreamEvent::TranscriptDone(json_string_field(text, "transcript"))
    } else {
        UpstreamEvent::Other
    }
}

} // verus!
