//! Conversation-phase state machine.
//!
//! The relay tracks a coarse tutoring phase, advanced once per finished
//! transcript event. The tracking is advisory telemetry: it never gates or
//! rejects audio or control traffic.

use vstd::prelude::*;
use vstd::string::StrSliceExecFns;

verus! {

/// How many answers are taken during the questioning phase before the
/// conversation is considered complete.
pub const QUESTION_COUNT: u32 = 3;

/// A transcript this long (in characters) is taken as the topic the user
/// wants to teach when the conversation is still in its initial phase.
pub const TOPIC_MIN_CHARS: u32 = 10;

/// Coarse phase of one tutoring conversation. Progression is strictly
/// forward: no transition leads back to an earlier phase.
#[derive(Clone, Copy, Debug, PartialEq, Eq, Structural)]
pub enum ConversationState {
    Initial,
    WaitingForTopic,
    ReadyToTeach,
    Teaching,
    Analyzing,
    /// Carries the number of answers heard so far in this phase.
    Questioning(u32),
    Complete,
}

/// What the state machine remembers: the phase, and the topic transcript
/// recorded when leaving the initial phase.
pub struct ConversationContext {
    pub state: ConversationState,
    pub topic: Option<String>,
}

/// Mathematical image of a [`ConversationContext`].
pub struct ConversationView {
    pub state: ConversationState,
    pub topic: Option<Seq<char>>,
}

impl View for ConversationContext {
    type V = ConversationView;

    open spec fn view(&self) -> ConversationView {
        ConversationView {
            state: self.state,
            topic: match self.topic {
                Some(t) => Some(t@),
                None => None,
            },
        }
    }
}

/// Whether a transcript is substantial enough to count as a topic choice.
pub open spec fn spec_topic_trigger(t: Seq<char>) -> bool {
    t.len() > TOPIC_MIN_CHARS
}

/// One phase transition, keyed on the transcript of the most recent
/// finished-transcript event.
pub open spec fn spec_advance(s: ConversationState, t: Seq<char>) -> ConversationState {
    match s {
        ConversationState::Initial => if spec_topic_trigger(t) {
            ConversationState::WaitingForTopic
        } else {
            ConversationState::Initial
        },
        ConversationState::WaitingForTopic => ConversationState::ReadyToTeach,
        ConversationState::ReadyToTeach => ConversationState::Teaching,
        ConversationState::Teaching => ConversationState::Analyzing,
        ConversationState::Analyzing => ConversationState::Questioning(0),
        ConversationState::Questioning(n) => if n + 1 >= QUESTION_COUNT {
            ConversationState::Complete
        } else {
            ConversationState::Questioning((n + 1) as u32)
        },
        ConversationState::Complete => ConversationState::Complete,
    }
}

/// One full observation step: the phase advances, and the transcript is
/// recorded as the topic exactly when it triggers the first transition.
pub open spec fn spec_observe(c: ConversationView, t: Seq<char>) -> ConversationView {
    ConversationView {
        state: spec_advance(c.state, t),
        topic: if c.state is Initial && spec_topic_trigger(t) {
            Some(t)
        } else {
            c.topic
        },
    }
}

/// The questioning counter never reaches its bound while still questioning.
pub open spec fn spec_wf_state(s: ConversationState) -> bool {
    match s {
        ConversationState::Questioning(n) => n < QUESTION_COUNT,
        _ => true,
    }
}

/// Rank of a phase along the forward progression.
pub open spec fn spec_phase_rank(s: ConversationState) -> int {
    match s {
        ConversationState::Initial => 0,
        ConversationState::WaitingForTopic => 1,
        ConversationState::ReadyToTeach => 2,
        ConversationState::Teaching => 3,
        ConversationState::Analyzing => 4,
        ConversationState::Questioning(_) => 5,
        ConversationState::Complete => 6,
    }
}

impl ConversationContext {
    /// A fresh conversation: initial phase, no topic yet.
    pub fn new() -> (c: Self)
        ensures
            c@ == (ConversationView { state: ConversationState::Initial, topic: None }),
    {
        ConversationContext { state: ConversationState::Initial, topic: None }
    }

    /// Feed the transcript of one finished-transcript event to the machine.
    pub fn observe_transcript(&mut self, transcript: &str)
        ensures
            final(self)@ == spec_observe(old(self)@, transcript@),
    {
        match self.state {
            ConversationState::Initial => {
                if transcript.unicode_len() > TOPIC_MIN_CHARS as usize {
                    self.topic = Some(transcript.to_owned());
                    self.state = ConversationState::WaitingForTopic;
                }
            },
            ConversationState::WaitingForTopic => {
                self.state = ConversationState::ReadyToTeach;
            },
            ConversationState::ReadyToTeach => {
                self.state = ConversationState::Teaching;
            },
            ConversationState::Teaching => {
                self.state = ConversationState::Analyzing;
            },
            ConversationState::Analyzing => {
                self.state = ConversationState::Questioning(0);
            },
            ConversationState::Questioning(n) => {
                if n >= QUESTION_COUNT - 1 {
                    self.state = ConversationState::Complete;
                } else {
                    self.state = ConversationState::Questioning(n + 1);
                }
            },
            ConversationState::Complete => {},
        }
    }

}

/// Law: phase progression is monotonic. No transcript moves the conversation
/// to an earlier phase, and within the questioning phase the answer counter
/// only grows.
pub proof fn lemma_progress_monotonic(s: ConversationState, t: Seq<char>)
    ensures
        spec_phase_rank(spec_advance(s, t)) >= spec_phase_rank(s),
        s matches ConversationState::Questioning(n)
            ==> (spec_advance(s, t) matches ConversationState::Questioning(m) ==> m > n),
{
}

/// Law: a well-formed questioning counter stays well-formed across any
/// transition, so the counter is bounded by [`QUESTION_COUNT`] throughout.
pub proof fn lemma_wf_preserved(s: ConversationState, t: Seq<char>)
    requires
        spec_wf_state(s),
    ensures
        spec_wf_state(spec_advance(s, t)),
{
}

/// Law: the complete phase is terminal.
pub proof fn lemma_complete_terminal(t: Seq<char>)
    ensures
        spec_advance(ConversationState::Complete, t) == ConversationState::Complete,
{
}

} // verus!
