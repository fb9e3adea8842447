use feynman_relay::simulator::Simulator;

#[test]
fn script_advances_per_audio_frame() {
    let mut sim = Simulator::new();
    let (t0, audio) = sim.on_audio();
    assert!(t0.contains("What topic would you like to teach me today?"));
    assert_eq!(audio.len(), 1024);
    for (i, b) in audio.iter().enumerate() {
        assert_eq!(*b, (i % 256) as u8);
    }
    let (t1, _) = sim.on_audio();
    assert_eq!(
        t1,
        "{\"type\":\"response.audio_transcript.done\",\"transcript\":\"photosynthesis\"}"
    );
    let (t2, _) = sim.on_audio();
    assert!(t2.contains("ready to start learning about photosynthesis"));
    let (t3, _) = sim.on_audio();
    assert!(t3.contains("chlorophyll"));
    let (t4, _) = sim.on_audio();
    assert!(t4.contains("light-dependent and light-independent"));
    // Past the script's end the closing line repeats.
    let (t5, _) = sim.on_audio();
    assert!(t5.contains("Excellent work!"));
    let (t6, _) = sim.on_audio();
    assert_eq!(t5, t6);
}

#[test]
fn commit_token_answers_response_done() {
    let sim = Simulator::new();
    assert_eq!(sim.on_text("commit_audio"), "{\"type\":\"response.done\"}");
}

#[test]
fn other_text_is_echoed() {
    let sim = Simulator::new();
    assert_eq!(sim.on_text("hello"), "Test mode echo: hello");
    assert_eq!(sim.on_text(""), "Test mode echo: ");
}

#[test]
fn scripted_transcripts_are_valid_events() {
    let mut sim = Simulator::new();
    for _ in 0..6 {
        let (t, _) = sim.on_audio();
        let parsed: serde_json::Value = serde_json::from_str(&t).unwrap();
        assert_eq!(parsed["type"], "response.audio_transcript.done");
        assert!(parsed["transcript"].is_string());
    }
}
