use feynman_relay::conversation::ConversationState;
use feynman_relay::session::{Directive, Session, SessionInput};
use feynman_relay::protocol::Frame;

fn commit_token() -> SessionInput {
    SessionInput::ClientText(String::from("commit_audio"))
}

#[test]
fn audio_frames_then_commit_in_order() {
    let mut s = Session::new();
    let frames: Vec<Vec<u8>> = vec![vec![0u8, 1, 2], vec![255u8], vec![]];
    let mut sent: Vec<String> = Vec::new();
    for f in &frames {
        match s.step(SessionInput::ClientAudio(f.clone())) {
            Directive::SendUpstream(texts) => {
                assert_eq!(texts.len(), 1);
                sent.extend(texts);
            }
            _ => panic!("an audio frame must go upstream"),
        }
        assert!(s.has_pending_audio);
    }
    // Every frame became its own append event, in order, with the payload
    // recoverable from the JSON.
    assert_eq!(sent.len(), frames.len());
    for (text, frame) in sent.iter().zip(frames.iter()) {
        let parsed: serde_json::Value = serde_json::from_str(text).unwrap();
        assert_eq!(parsed["type"], "input_audio_buffer.append");
        let payload = parsed["audio"].as_str().unwrap();
        let decoded =
            base64::Engine::decode(&base64::engine::general_purpose::STANDARD, payload).unwrap();
        assert_eq!(&decoded, frame);
    }
    // The commit token then produces exactly one commit and one
    // response-create, in that order, and clears the pending flag.
    match s.step(commit_token()) {
        Directive::SendUpstream(texts) => {
            assert_eq!(
                texts,
                vec![
                    String::from("{\"type\":\"input_audio_buffer.commit\"}"),
                    String::from("{\"type\":\"response.create\",\"response\":{\"modalities\":[\"text\",\"audio\"],\"instructions\":\"Follow the Feynman tutor protocol.\"}}"),
                ]
            );
        }
        _ => panic!("the commit token after audio must commit"),
    }
    assert!(!s.has_pending_audio);
}

#[test]
fn commit_without_audio_is_noop() {
    let mut s = Session::new();
    match s.step(commit_token()) {
        Directive::Ignore => {}
        _ => panic!("a commit with no pending audio must do nothing"),
    }
    assert!(!s.has_pending_audio);
    assert!(!s.done);
}

#[test]
fn second_commit_is_noop() {
    let mut s = Session::new();
    s.step(SessionInput::ClientAudio(vec![1u8, 2]));
    match s.step(commit_token()) {
        Directive::SendUpstream(texts) => assert_eq!(texts.len(), 2),
        _ => panic!("the first commit must go through"),
    }
    match s.step(commit_token()) {
        Directive::Ignore => {}
        _ => panic!("a second commit with nothing appended must do nothing"),
    }
}

#[test]
fn other_client_text_is_ignored() {
    let mut s = Session::new();
    s.step(SessionInput::ClientAudio(vec![1u8]));
    match s.step(SessionInput::ClientText(String::from("hello"))) {
        Directive::Ignore => {}
        _ => panic!("unknown client text must be ignored"),
    }
    assert!(s.has_pending_audio, "unknown text must not clear the flag");
}

#[test]
fn audio_delta_round_trip() {
    let mut s = Session::new();
    let bytes = vec![1u8, 2, 3, 250, 0];
    let payload = base64::Engine::encode(&base64::engine::general_purpose::STANDARD, &bytes);
    let event = format!(
        "{{\"type\":\"response.audio.delta\",\"delta\":\"{}\"}}",
        payload
    );
    match s.step(SessionInput::UpstreamText(event)) {
        Directive::ForwardToClient(Frame::Binary(b)) => assert_eq!(b, bytes),
        _ => panic!("a well-formed delta must reach the client as binary"),
    }
    assert!(!s.done);
}

#[test]
fn malformed_delta_is_dropped_session_lives() {
    let mut s = Session::new();
    let event = String::from("{\"type\":\"response.audio.delta\",\"delta\":\"!!!not base64!!!\"}");
    match s.step(SessionInput::UpstreamText(event)) {
        Directive::Ignore => {}
        _ => panic!("a malformed delta must produce no client frame"),
    }
    assert!(!s.done);
    // The session keeps working afterwards.
    match s.step(SessionInput::UpstreamBinary(vec![9u8])) {
        Directive::ForwardToClient(Frame::Binary(b)) => assert_eq!(b, vec![9u8]),
        _ => panic!("the session must keep relaying after a dropped delta"),
    }
}

#[test]
fn delta_without_payload_is_dropped() {
    let mut s = Session::new();
    let event = String::from("{\"type\":\"response.audio.delta\"}");
    match s.step(SessionInput::UpstreamText(event)) {
        Directive::Ignore => {}
        _ => panic!("a delta without a payload must be dropped"),
    }
}

#[test]
fn unknown_upstream_text_forwarded_verbatim() {
    let mut s = Session::new();
    let event = String::from("{\"type\":\"session.created\",\"session\":{}}");
    match s.step(SessionInput::UpstreamText(event.clone())) {
        Directive::ForwardToClient(Frame::Text(t)) => assert_eq!(t, event),
        _ => panic!("unrecognized events must pass through"),
    }
    let not_json = String::from("plain text, no JSON here");
    match s.step(SessionInput::UpstreamText(not_json.clone())) {
        Directive::ForwardToClient(Frame::Text(t)) => assert_eq!(t, not_json),
        _ => panic!("unparsable text must still pass through"),
    }
}

#[test]
fn transcript_event_forwarded_and_observed() {
    let mut s = Session::new();
    let event = String::from(
        "{\"type\":\"response.audio_transcript.done\",\"transcript\":\"I want to teach physics\"}",
    );
    match s.step(SessionInput::UpstreamText(event.clone())) {
        Directive::ForwardToClient(Frame::Text(t)) => assert_eq!(t, event),
        _ => panic!("transcript events must still reach the client"),
    }
    assert_eq!(s.conversation.state, ConversationState::WaitingForTopic);
    assert_eq!(
        s.conversation.topic,
        Some(String::from("I want to teach physics"))
    );
}

#[test]
fn transcript_sequence_drives_phases_through_the_relay() {
    let mut s = Session::new();
    let script: [(&str, ConversationState); 5] = [
        ("I want to teach X", ConversationState::WaitingForTopic),
        ("ok", ConversationState::ReadyToTeach),
        ("here is my lesson", ConversationState::Teaching),
        ("question1 answer", ConversationState::Analyzing),
        ("question2 answer", ConversationState::Questioning(0)),
    ];
    for (transcript, expected) in script {
        let event = format!(
            "{{\"type\":\"response.audio_transcript.done\",\"transcript\":\"{}\"}}",
            transcript
        );
        match s.step(SessionInput::UpstreamText(event.clone())) {
            Directive::ForwardToClient(Frame::Text(forwarded)) => assert_eq!(forwarded, event),
            _ => panic!("transcript events must be forwarded"),
        }
        assert_eq!(s.conversation.state, expected);
    }
    for transcript in ["more", "and more", "done now"] {
        let event = format!(
            "{{\"type\":\"response.audio_transcript.done\",\"transcript\":\"{}\"}}",
            transcript
        );
        s.step(SessionInput::UpstreamText(event));
    }
    assert_eq!(s.conversation.state, ConversationState::Complete);
    assert_eq!(s.conversation.topic, Some(String::from("I want to teach X")));
}

#[test]
fn upstream_binary_forwarded_unchanged() {
    let mut s = Session::new();
    match s.step(SessionInput::UpstreamBinary(vec![1u8, 2, 3])) {
        Directive::ForwardToClient(Frame::Binary(b)) => assert_eq!(b, vec![1u8, 2, 3]),
        _ => panic!("legacy binary frames must pass through unchanged"),
    }
}

#[test]
fn client_close_shuts_both_and_ends() {
    let mut s = Session::new();
    match s.step(SessionInput::ClientClosed) {
        Directive::Shutdown => {}
        _ => panic!("a client close must shut the session down"),
    }
    assert!(s.done);
    // No frame is processed after termination.
    match s.step(SessionInput::ClientAudio(vec![1u8])) {
        Directive::Ignore => {}
        _ => panic!("no event may be processed after shutdown"),
    }
    match s.step(SessionInput::UpstreamText(String::from("{\"type\":\"response.done\"}"))) {
        Directive::Ignore => {}
        _ => panic!("no event may be processed after shutdown"),
    }
}

#[test]
fn upstream_close_shuts_both_and_ends() {
    let mut s = Session::new();
    match s.step(SessionInput::UpstreamClosed) {
        Directive::Shutdown => {}
        _ => panic!("an upstream close must shut the session down"),
    }
    assert!(s.done);
}

#[test]
fn send_failure_shuts_both_and_ends() {
    let mut s = Session::new();
    match s.step(SessionInput::SendFailed) {
        Directive::Shutdown => {}
        _ => panic!("a failed send must shut the session down"),
    }
    assert!(s.done);
}

#[test]
fn other_message_kinds_are_ignored() {
    let mut s = Session::new();
    match s.step(SessionInput::ClientOther) {
        Directive::Ignore => {}
        _ => panic!("other client message kinds must be ignored"),
    }
    match s.step(SessionInput::UpstreamOther) {
        Directive::Ignore => {}
        _ => panic!("other upstream message kinds must be ignored"),
    }
    assert!(!s.done);
}
