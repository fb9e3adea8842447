//! The relay session: one step function from event to state and action.
//!
//! The socket loop outside this crate waits on both sockets, turns whatever
//! arrives into a [`SessionInput`], calls [`Session::step`], and performs
//! the returned [`Directive`]. Handling is strictly one event at a time, so
//! everything the relay decides is captured by [`spec_step`].
//!
//! Shutdown is symmetric: when either side closes, ends, or fails, the step
//! answers [`Directive::Shutdown`] (close both sides, best effort, and
//! return) and the session is done; once done, every further event is
//! ignored. A failed initial connect is reported to the client as one text
//! diagnostic and the client socket is closed — the session does not stay
//! open awaiting a retry command.

use vstd::prelude::*;
use vstd::string::StringExecFns;
use vstd::string::StrSliceExecFns;
use crate::codec::b64_encoding;
use crate::codec::b64_decoding;
use crate::codec::json_str_field;
use crate::conversation::ConversationContext;
use crate::conversation::ConversationView;
use crate::conversation::ConversationState;
use crate::conversation::spec_observe;
use crate::protocol::Frame;
use crate::protocol::FrameView;
use crate::protocol::UpstreamEvent;
use crate::protocol::spec_classify;
use crate::protocol::classify_upstream_text;
use crate::protocol::spec_append_event;
use crate::protocol::spec_commit_event;
use crate::protocol::spec_response_create_event;
use crate::protocol::append_event;
use crate::protocol::commit_event;
use crate::protocol::response_create_event;

verus! {

/// The control token a client sends to finish an audio turn.
pub open spec fn spec_commit_token() -> Seq<char> {
    "commit_audio"@
}

/// One event handed to the step function by the socket loop.
pub enum SessionInput {
    /// A binary audio frame from the client.
    ClientAudio(Vec<u8>),
    /// A text frame from the client: the commit token or anything else.
    ClientText(String),
    /// The client socket closed, ended, or failed on receive.
    ClientClosed,
    /// Any other client message kind: ignored.
    ClientOther,
    /// A text frame from the upstream.
    UpstreamText(String),
    /// A binary frame from the upstream, forwarded unchanged (legacy path
    /// for protocol variants that stream audio without JSON wrapping).
    UpstreamBinary(Vec<u8>),
    /// The upstream socket closed, ended, or failed on receive.
    UpstreamClosed,
    /// Any other upstream message kind: ignored.
    UpstreamOther,
    /// A send toward either side failed.
    SendFailed,
}

/// Mathematical image of a [`SessionInput`].
pub enum InputView {
    ClientAudio(Seq<u8>),
    ClientText(Seq<char>),
    ClientClosed,
    ClientOther,
    UpstreamText(Seq<char>),
    UpstreamBinary(Seq<u8>),
    UpstreamClosed,
    UpstreamOther,
    SendFailed,
}

impl View for SessionInput {
    type V = InputView;

    open spec fn view(&self) -> InputView {
        match self {
            SessionInput::ClientAudio(b) => InputView::ClientAudio(b@),
            SessionInput::ClientText(t) => InputView::ClientText(t@),
            SessionInput::ClientClosed => InputView::ClientClosed,
            SessionInput::ClientOther => InputView::ClientOther,
            SessionInput::UpstreamText(t) => InputView::UpstreamText(t@),
            SessionInput::UpstreamBinary(b) => InputView::UpstreamBinary(b@),
            SessionInput::UpstreamClosed => InputView::UpstreamClosed,
            SessionInput::UpstreamOther => InputView::UpstreamOther,
            SessionInput::SendFailed => InputView::SendFailed,
        }
    }
}

/// What the socket loop must do after one step.
pub enum Directive {
    /// Nothing to send.
    Ignore,
    /// Send these JSON event texts to the upstream, in this order.
    SendUpstream(Vec<String>),
    /// Send this frame to the client.
    ForwardToClient(Frame),
    /// Close both sockets (best effort) and return: the session is over.
    Shutdown,
}

/// Mathematical image of a [`Directive`].
pub enum DirectiveView {
    Ignore,
    SendUpstream(Seq<Seq<char>>),
    ForwardToClient(FrameView),
    Shutdown,
}

impl View for Directive {
    type V = DirectiveView;

    open spec fn view(&self) -> DirectiveView {
        match self {
            Directive::Ignore => DirectiveView::Ignore,
            Directive::SendUpstream(ts) => DirectiveView::SendUpstream(ts.deep_view()),
            Directive::ForwardToClient(f) => DirectiveView::ForwardToClient(f@),
            Directive::Shutdown => DirectiveView::Shutdown,
        }
    }
}

/// Everything one relay session owns.
pub struct Session {
    pub conversation: ConversationContext,
    /// True iff at least one audio frame has been appended upstream since
    /// the last commit; the commit token is a no-op while it is false, and
    /// it resets the moment a commit is issued (fire and forget).
    pub has_pending_audio: bool,
    /// Set once either side has signaled termination; no frame is processed
    /// after that.
    pub done: bool,
}

/// Mathematical image of a [`Session`].
pub struct SessionView {
    pub conversation: ConversationView,
    pub has_pending_audio: bool,
    pub done: bool,
}

impl View for Session {
    type V = SessionView;

    open spec fn view(&self) -> SessionView {
        SessionView {
            conversation: self.conversation@,
            has_pending_audio: self.has_pending_audio,
            done: self.done,
        }
    }
}

/// The whole decision of the relay on one event: the session afterwards and
/// the action the socket loop performs.
pub open spec fn spec_step(s: SessionView, input: InputView) -> (SessionView, DirectiveView) {
    if s.done {
        (s, DirectiveView::Ignore)
    } else {
        match input {
            InputView::ClientAudio(bytes) => (
                SessionView { has_pending_audio: true, ..s },
                DirectiveView::SendUpstream(seq![spec_append_event(b64_encoding(bytes))]),
            ),
            InputView::ClientText(t) => if t == spec_commit_token() && s.has_pending_audio {
                (
                    SessionView { has_pending_audio: false, ..s },
                    DirectiveView::SendUpstream(
                        seq![spec_commit_event(), spec_response_create_event()],
                    ),
                )
            } else {
                (s, DirectiveView::Ignore)
            },
            InputView::ClientClosed => (
                SessionView { done: true, ..s },
                DirectiveView::Shutdown,
            ),
            InputView::ClientOther => (s, DirectiveView::Ignore),
            InputView::UpstreamText(t) => match spec_classify(t) {
                crate::protocol::UpstreamEventView::AudioDelta(bytes) => (
                    s,
                    DirectiveView::ForwardToClient(FrameView::Binary(bytes)),
                ),
                crate::protocol::UpstreamEventView::MalformedDelta => (s, DirectiveView::Ignore),
                crate::protocol::UpstreamEventView::TranscriptDone(tr) => (
                    SessionView {
                        conversation: match tr {
                            Some(x) => spec_observe(s.conversation, x),
                            None => s.conversation,
                        },
                        ..s
                    },
                    DirectiveView::ForwardToClient(FrameView::Text(t)),
                ),
                crate::protocol::UpstreamEventView::Other => (
                    s,
                    DirectiveView::ForwardToClient(FrameView::Text(t)),
                ),
            },
            InputView::UpstreamBinary(bytes) => (
                s,
                DirectiveView::ForwardToClient(FrameView::Binary(bytes)),
            ),
            InputView::UpstreamClosed => (
                SessionView { done: true, ..s },
                DirectiveView::Shutdown,
            ),
            InputView::UpstreamOther => (s, DirectiveView::Ignore),
            InputView::SendFailed => (
                SessionView { done: true, ..s },
                DirectiveView::Shutdown,
            ),
        }
    }
}

impl Session {
    /// A fresh session over a just-established pair of connections.
    pub fn new() -> (s: Self)
        ensures
            s@ == (SessionView {
                conversation: ConversationView { state: ConversationState::Initial, topic: None },
                has_pending_audio: false,
                done: false,
            }),
    {
        Session {
            conversation: ConversationContext::new(),
            has_pending_audio: false,
            done: false,
        }
    }

    /// Handle one event. The length bound on audio frames is what the
    /// base64 engine's buffer arithmetic needs; every real frame meets it.
    pub fn step(&mut self, input: SessionInput) -> (d: Directive)
        requires
            input matches SessionInput::ClientAudio(b) ==> b@.len() <= usize::MAX / 2,
        ensures
            (final(self)@, d@) == spec_step(old(self)@, input@),
    {
        if self.done {
            return Directive::Ignore;
        }
        match input {
            SessionInput::ClientAudio(bytes) => {
                self.has_pending_audio = true;
                let text = append_event(bytes.as_slice());
                let mut msgs: Vec<String> = Vec::new();
                msgs.push(text);
                proof {
                    assert(msgs.deep_view() =~= seq![spec_append_event(b64_encoding(bytes@))]);
                }
                Directive::SendUpstream(msgs)
            },
            SessionInput::ClientText(t) => {
                if self.has_pending_audio && t == String::from_str("commit_audio") {
                    self.has_pending_audio = false;
                    let mut msgs: Vec<String> = Vec::new();
                    msgs.push(commit_event());
                    msgs.push(response_create_event());
                    proof {
                        assert(msgs.deep_view() =~= seq![
                            spec_commit_event(),
                            spec_response_create_event(),
                        ]);
                    }
                    Directive::SendUpstream(msgs)
                } else {
                    Directive::Ignore
                }
            },
            SessionInput::ClientClosed => {
                self.done = true;
                Directive::Shutdown
            },
            SessionInput::ClientOther => Directive::Ignore,
            SessionInput::UpstreamText(t) => {
                let ev = classify_upstream_text(t.as_str());
                match ev {
                    UpstreamEvent::AudioDelta(bytes) => Directive::ForwardToClient(
                        Frame::Binary(bytes),
                    ),
                    UpstreamEvent::MalformedDelta => Directive::Ignore,
                    UpstreamEvent::TranscriptDone(tr) => {
                        if let Some(x) = &tr {
                            self.conversation.observe_transcript(x.as_str());
                        }
                        Directive::ForwardToClient(Frame::Text(t))
                    },
                    UpstreamEvent::Other => Directive::ForwardToClient(Frame::Text(t)),
                }
            },
            SessionInput::UpstreamBinary(bytes) => Directive::ForwardToClient(
                Frame::Binary(bytes),
            ),
            SessionInput::UpstreamClosed => {
                self.done = true;
                Directive::Shutdown
            },
            SessionInput::UpstreamOther => Directive::Ignore,
            SessionInput::SendFailed => {
                self.done = true;
                Directive::Shutdown
            },
        }
    }
}

/// Run the step function over a whole sequence of events, collecting the
/// directives it answers, in order.
pub open spec fn spec_run(s: SessionView, inputs: Seq<InputView>) -> (SessionView, Seq<
    DirectiveView,
>)
    decreases inputs.len(),
{
    if inputs.len() == 0 {
        (s, Seq::empty())
    } else {
        let head = spec_step(s, inputs.first());
        let rest = spec_run(head.0, inputs.drop_first());
        (rest.0, seq![head.1] + rest.1)
    }
}

/// The audio frames of a client turn, as step inputs.
pub open spec fn spec_audio_inputs(frames: Seq<Seq<u8>>) -> Seq<InputView> {
    frames.map_values(|b: Seq<u8>| InputView::ClientAudio(b))
}

/// Running a concatenation of event sequences runs them one after the
/// other, and the directives concatenate likewise.
pub proof fn lemma_run_append(s: SessionView, a: Seq<InputView>, b: Seq<InputView>)
    ensures
        ({
            let ra = spec_run(s, a);
            let rb = spec_run(ra.0, b);
            spec_run(s, a + b) == (rb.0, ra.1 + rb.1)
        }),
    decreases a.len(),
{
    let ra = spec_run(s, a);
    let rb = spec_run(ra.0, b);
    if a.len() == 0 {
        assert(a + b =~= b);
        assert(ra.1 + rb.1 =~= rb.1);
    } else {
        let head = spec_step(s, a.first());
        assert((a + b).first() == a.first());
        assert((a + b).drop_first() =~= a.drop_first() + b);
        lemma_run_append(head.0, a.drop_first(), b);
        let ra2 = spec_run(head.0, a.drop_first());
        let rb2 = spec_run(ra2.0, b);
        assert(seq![head.1] + (ra2.1 + rb2.1) =~= (seq![head.1] + ra2.1) + rb2.1);
    }
}

/// Running only audio frames appends each one upstream as its own event, in
/// order, marks audio pending, and touches nothing else of the session.
pub proof fn lemma_audio_frames_run(s: SessionView, frames: Seq<Seq<u8>>)
    requires
        !s.done,
    ensures
        ({
            let r = spec_run(s, spec_audio_inputs(frames));
            &&& r.1.len() == frames.len()
            &&& forall|i: int|
                0 <= i < frames.len() ==> r.1[i] == DirectiveView::SendUpstream(
                    seq![spec_append_event(b64_encoding(frames[i]))],
                )
            &&& r.0.done == s.done
            &&& r.0.conversation == s.conversation
            &&& r.0.has_pending_audio == if frames.len() > 0 {
                true
            } else {
                s.has_pending_audio
            }
        }),
    decreases frames.len(),
{
    let inputs = spec_audio_inputs(frames);
    if frames.len() == 0 {
        assert(inputs.len() == 0);
    } else {
        assert(inputs.first() == InputView::ClientAudio(frames.first()));
        let s1 = spec_step(s, inputs.first()).0;
        assert(inputs.drop_first() =~= spec_audio_inputs(frames.drop_first()));
        lemma_audio_frames_run(s1, frames.drop_first());
        let r = spec_run(s, inputs);
        let rest = spec_run(s1, inputs.drop_first());
        assert forall|i: int| 0 <= i < frames.len() implies r.1[i] == DirectiveView::SendUpstream(
            seq![spec_append_event(b64_encoding(frames[i]))],
        ) by {
            if i > 0 {
                assert(r.1[i] == rest.1[i - 1]);
                assert(frames.drop_first()[i - 1] == frames[i]);
            }
        }
    }
}

/// Law: one full audio turn. For any sequence of client audio frames
/// followed by the commit token, every frame goes upstream as a distinct
/// append event, in order, all before exactly one commit event and exactly
/// one response-create event; the pending-audio flag ends cleared and the
/// rest of the session is untouched.
pub proof fn lemma_audio_turn(s: SessionView, frames: Seq<Seq<u8>>)
    requires
        !s.done,
        frames.len() >= 1,
    ensures
        ({
            let inputs = spec_audio_inputs(frames).push(
                InputView::ClientText(spec_commit_token()),
            );
            let r = spec_run(s, inputs);
            &&& r.1.len() == frames.len() + 1
            &&& forall|i: int|
                0 <= i < frames.len() ==> r.1[i] == DirectiveView::SendUpstream(
                    seq![spec_append_event(b64_encoding(frames[i]))],
                )
            &&& r.1[frames.len() as int] == DirectiveView::SendUpstream(
                seq![spec_commit_event(), spec_response_create_event()],
            )
            &&& r.0 == (SessionView { has_pending_audio: false, ..s })
        }),
{
    reveal_with_fuel(spec_run, 3);
    let audio = spec_audio_inputs(frames);
    let tail = seq![InputView::ClientText(spec_commit_token())];
    assert(audio.push(InputView::ClientText(spec_commit_token())) =~= audio + tail);
    lemma_audio_frames_run(s, frames);
    lemma_run_append(s, audio, tail);
    let mid = spec_run(s, audio).0;
    assert(tail.drop_first() =~= Seq::<InputView>::empty());
    let last = spec_step(mid, tail.first());
    assert(spec_run(mid, tail).1 =~= seq![last.1]);
}

/// Law: the commit token with no audio pending is a no-op. Nothing is sent
/// upstream, no response is requested, and the session is unchanged.
pub proof fn lemma_commit_without_audio_is_noop(s: SessionView)
    requires
        !s.done,
        !s.has_pending_audio,
    ensures
        spec_step(s, InputView::ClientText(spec_commit_token())) == (s, DirectiveView::Ignore),
{
}

/// Law: round trip of an audio delta. An upstream delta event whose payload
/// decodes to some bytes reaches the client as a binary frame holding
/// exactly those bytes, and the session state is untouched.
pub proof fn lemma_audio_delta_round_trip(
    s: SessionView,
    text: Seq<char>,
    payload: Seq<char>,
    bytes: Seq<u8>,
)
    requires
        !s.done,
        json_str_field(text, "type"@) == Some("response.audio.delta"@),
        json_str_field(text, "delta"@) == Some(payload),
        b64_decoding(payload) == Some(bytes),
    ensures
        spec_step(s, InputView::UpstreamText(text)) == (
            s,
            DirectiveView::ForwardToClient(FrameView::Binary(bytes)),
        ),
{
}

/// Law: a malformed audio delta — the payload missing or not valid base64 —
/// produces no client frame at all, and the session stays alive unchanged.
pub proof fn lemma_malformed_delta_dropped(s: SessionView, text: Seq<char>)
    requires
        !s.done,
        json_str_field(text, "type"@) == Some("response.audio.delta"@),
        match json_str_field(text, "delta"@) {
            Option::None => true,
            Option::Some(payload) => b64_decoding(payload) is None,
        },
    ensures
        spec_step(s, InputView::UpstreamText(text)) == (s, DirectiveView::Ignore),
        !spec_step(s, InputView::UpstreamText(text)).0.done,
{
}

/// Law: termination is symmetric. Whichever side closes, ends, or fails
/// first, the step orders both sides shut and marks the session done.
pub proof fn lemma_termination_symmetry(s: SessionView)
    requires
        !s.done,
    ensures
        spec_step(s, InputView::ClientClosed) == (
            (SessionView { done: true, ..s }),
            DirectiveView::Shutdown,
        ),
        spec_step(s, InputView::UpstreamClosed) == (
            (SessionView { done: true, ..s }),
            DirectiveView::Shutdown,
        ),
        spec_step(s, InputView::SendFailed) == (
            (SessionView { done: true, ..s }),
            DirectiveView::Shutdown,
        ),
{
}

/// Law: upstream handling is strictly additive. One upstream text produces
/// at most one client-bound frame and at most one state-machine
/// observation, never sends anything upstream, and never ends the session.
pub proof fn lemma_upstream_text_additive(s: SessionView, t: Seq<char>)
    requires
        !s.done,
    ensures
        ({
            let r = spec_step(s, InputView::UpstreamText(t));
            &&& r.1 is Ignore || r.1 is ForwardToClient
            &&& r.0.done == s.done
            &&& r.0.has_pending_audio == s.has_pending_audio
            &&& (r.0.conversation == s.conversation || (spec_classify(t)
                matches crate::protocol::UpstreamEventView::TranscriptDone(tr) && tr matches Some(
                x,
            ) && r.0.conversation == spec_observe(s.conversation, x)))
        }),
{
}

/// Law: a finished session absorbs everything. Once done, no event changes
/// the session or produces any frame.
pub proof fn lemma_done_absorbs_all(s: SessionView, input: InputView)
    requires
        s.done,
    ensures
        spec_step(s, input) == (s, DirectiveView::Ignore),
{
}

/// Whether a credential has the expected shape (the fixed prefix of the
/// upstream's keys). This is the single static admission check the relay
/// makes before dialing upstream.
pub open spec fn spec_credential_ok(key: Seq<char>) -> bool {
    key.len() >= 3 && key.subrange(0, 3) == "sk-"@
}

/// Test a credential's shape.
pub fn credential_format_ok(key: &str) -> (r: bool)
    ensures
        r == spec_credential_ok(key@),
{
    proof {
        reveal_strlit("sk-");
    }
    if key.unicode_len() < 3 {
        return false;
    }
    let r = key.get_char(0) == 's' && key.get_char(1) == 'k' && key.get_char(2) == '-';
    proof {
        if r {
            assert(key@.subrange(0, 3) =~= "sk-"@);
        } else {
            assert(key@.subrange(0, 3) != "sk-"@) by {
                if key@.subrange(0, 3) == "sk-"@ {
                    assert(key@[0] == key@.subrange(0, 3)[0]);
                    assert(key@[1] == key@.subrange(0, 3)[1]);
                    assert(key@[2] == key@.subrange(0, 3)[2]);
                }
            }
        }
    }
    r
}

} // verus!
