//! Scripted stand-in for the upstream service.
//!
//! In test mode the relay swaps the live upstream for this simulator, which
//! answers each client audio frame with the next transcript of a fixed
//! script plus a mock audio frame, and answers text frames with a
//! response-done event or an echo. It is a contract-test double, not part of
//! the production protocol.

use vstd::prelude::*;
use vstd::string::StringExecFns;
use crate::session::spec_commit_token;

verus! {

/// Length, in bytes, of the mock audio frame the simulator answers with.
pub const SIM_AUDIO_LEN: usize = 1024;

/// The scripted transcript event for one script position. Positions past
/// the script's end all answer the closing line.
pub open spec fn spec_mock_transcript(step: u32) -> Seq<char> {
    if step == 0 {
        "{\"type\":\"response.audio_transcript.done\",\"transcript\":\"Hello there! I am Feynman, your AI learning companion. What topic would you like to teach me today?\"}"@
    } else if step == 1 {
        "{\"type\":\"response.audio_transcript.done\",\"transcript\":\"photosynthesis\"}"@
    } else if step == 2 {
        "{\"type\":\"response.audio_transcript.done\",\"transcript\":\"Awesome! I'm ready to start learning about photosynthesis whenever you are. Please go ahead and teach me everything you know about this topic.\"}"@
    } else if step == 3 {
        "{\"type\":\"response.audio_transcript.done\",\"transcript\":\"What role does chlorophyll play in capturing light energy?\"}"@
    } else if step == 4 {
        "{\"type\":\"response.audio_transcript.done\",\"transcript\":\"Can you explain the difference between the light-dependent and light-independent reactions?\"}"@
    } else {
        "{\"type\":\"response.audio_transcript.done\",\"transcript\":\"Excellent work! You've demonstrated a solid understanding of photosynthesis. Well done!\"}"@
    }
}

/// The event answering the commit token in test mode.
pub open spec fn spec_response_done_event() -> Seq<char> {
    "{\"type\":\"response.done\"}"@
}

/// The mock audio frame: a fixed repeating byte pattern.
pub open spec fn spec_mock_audio() -> Seq<u8> {
    Seq::new(SIM_AUDIO_LEN as nat, |i: int| (i % 256) as u8)
}

/// The simulator's whole state: its position in the script.
pub struct Simulator {
    pub step: u32,
}

impl Simulator {
    /// A simulator at the top of its script.
    pub fn new() -> (s: Self)
        ensures
            s.step == 0,
    {
        Simulator { step: 0 }
    }

    /// Answer one client audio frame: the scripted transcript event and a
    /// mock audio frame, advancing the script while it has lines left.
    pub fn on_audio(&mut self) -> (r: (String, Vec<u8>))
        ensures
            r.0@ == spec_mock_transcript(old(self).step),
            r.1@ == spec_mock_audio(),
            final(self).step == if old(self).step < 5 {
                old(self).step + 1
            } else {
                old(self).step as int
            },
    {
        let transcript = if self.step == 0 {
            String::from_str(
                "{\"type\":\"response.audio_transcript.done\",\"transcript\":\"Hello there! I am Feynman, your AI learning companion. What topic would you like to teach me today?\"}",
            )
        } else if self.step == 1 {
            String::from_str(
                "{\"type\":\"response.audio_transcript.done\",\"transcript\":\"photosynthesis\"}",
            )
        } else if self.step == 2 {
            String::from_str(
                "{\"type\":\"response.audio_transcript.done\",\"transcript\":\"Awesome! I'm ready to start learning about photosynthesis whenever you are. Please go ahead and teach me everything you know about this topic.\"}",
            )
        } else if self.step == 3 {
            String::from_str(
                "{\"type\":\"response.audio_transcript.done\",\"transcript\":\"What role does chlorophyll play in capturing light energy?\"}",
            )
        } else if self.step == 4 {
            String::from_str(
                "{\"type\":\"response.audio_transcript.done\",\"transcript\":\"Can you explain the difference between the light-dependent and light-independent reactions?\"}",
            )
        } else {
            String::from_str(
                "{\"type\":\"response.audio_transcript.done\",\"transcript\":\"Excellent work! You've demonstrated a solid understanding of photosynthesis. Well done!\"}",
            )
        };
        if self.step < 5 {
            self.step = self.step + 1;
        }
        let mut audio: Vec<u8> = Vec::new();
        let mut i: usize = 0;
        while i < SIM_AUDIO_LEN
            invariant
                i <= SIM_AUDIO_LEN,
                audio@.len() == i,
                forall|j: int| 0 <= j < i ==> audio@[j] == (j % 256) as u8,
            decreases SIM_AUDIO_LEN - i,
        {
            audio.push((i % 256) as u8);
            i = i + 1;
        }
        proof {
            assert(audio@ =~= spec_mock_audio());
        }
        (transcript, audio)
    }

    /// Answer one client text frame: the response-done event for the commit
    /// token, an echo for anything else.
    pub fn on_text(&self, text: &str) -> (r: String)
        ensures
            r@ == if text@ == spec_commit_token() {
                spec_response_done_event()
            } else {
                "Test mode echo: "@ + text@
            },
    {
        let owned = text.to_owned();
        if owned == String::from_str("commit_audio") {
            String::from_str("{\"type\":\"response.done\"}")
        } else {
            let mut r = String::from_str("Test mode echo: ");
            r.append(text);
            r
        }
    }
}

} // verus!
