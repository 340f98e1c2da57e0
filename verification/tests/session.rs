use athena_voice::satellite::session::{
    Command, Input, REPLY_TIMEOUT_MS, Session, State, UTTERANCE_MAX_MS,
};
fn sid_from_start_topic(cmds: &[Command]) -> String {
    let Command::Publish { topic, .. } = &cmds[0] else {
        panic!("expected a publish command, got {cmds:?}");
    };
    topic.split('/').nth(4).unwrap().to_string()
}

fn started(now_ms: u64) -> (Session, String) {
    let mut s = Session::new("esp32-sat", "fr");
    let sid = sid_from_start_topic(&s.handle(Input::Trigger, now_ms));
    (s, sid)
}

#[test]
fn trigger_starts_session_with_uuid_and_locale() {
    let mut s = Session::new("esp32-sat", "fr");
    let cmds = s.handle(Input::Trigger, 0);
    let Command::Publish { topic, payload } = &cmds[0] else {
        panic!("expected publish");
    };
    assert!(topic.starts_with("athena/sat/esp32-sat/session/"));
    assert!(topic.ends_with("/start"));
    let sid = topic.split('/').nth(4).unwrap();
    assert!(uuid::Uuid::parse_str(sid).is_ok());
    assert_eq!(payload, br#"{"locale":"fr"}"#);
    assert_eq!(*s.state(), State::Streaming);
}

#[test]
fn mic_frames_are_forwarded_while_streaming() {
    let (mut s, sid) = started(0);
    let cmds = s.handle(Input::MicFrame(vec![1, 2, 3, 4]), 100);
    let Command::Publish { topic, payload } = &cmds[0] else {
        panic!("expected publish");
    };
    assert_eq!(topic, &format!("athena/sat/esp32-sat/session/{sid}/audio"));
    assert_eq!(payload, &[1, 2, 3, 4]);
}

#[test]
fn silence_publishes_empty_audio_and_awaits_reply() {
    let (mut s, sid) = started(0);
    let cmds = s.handle(Input::SilenceDetected, 1000);
    let Command::Publish { topic, payload } = &cmds[0] else {
        panic!("expected publish");
    };
    assert_eq!(topic, &format!("athena/sat/esp32-sat/session/{sid}/audio"));
    assert!(payload.is_empty());
    assert_eq!(*s.state(), State::AwaitingReply);
}

#[test]
fn utterance_deadline_forces_end_of_utterance() {
    let (mut s, sid) = started(0);
    let cmds = s.handle(Input::Tick, UTTERANCE_MAX_MS + 1);
    let Command::Publish { topic, payload } = &cmds[0] else {
        panic!("expected publish");
    };
    assert_eq!(topic, &format!("athena/sat/esp32-sat/session/{sid}/audio"));
    assert!(payload.is_empty());
    assert_eq!(*s.state(), State::AwaitingReply);
}

#[test]
fn tts_meta_configures_speaker_and_moves_to_playing() {
    let (mut s, sid) = started(0);
    s.handle(Input::SilenceDetected, 1000);
    let cmds = s.handle(
        Input::Inbound {
            topic: format!("athena/sat/esp32-sat/session/{sid}/tts/meta"),
            payload: br#"{"sample_rate":24000,"channels":1,"frame_ms":20,"codec":"opus"}"#
                .to_vec(),
        },
        2000,
    );
    assert!(matches!(
        cmds[0],
        Command::ConfigureSpeaker { sample_rate: 24000 }
    ));
    assert_eq!(*s.state(), State::Playing);
}

#[test]
fn tts_chunks_are_played_even_before_meta() {
    let (mut s, sid) = started(0);
    s.handle(Input::SilenceDetected, 1000);
    let cmds = s.handle(
        Input::Inbound {
            topic: format!("athena/sat/esp32-sat/session/{sid}/tts"),
            payload: vec![9, 9],
        },
        2000,
    );
    let Command::Play(bytes) = &cmds[0] else {
        panic!("expected play");
    };
    assert_eq!(bytes, &[9, 9]);
}

#[test]
fn transcript_is_surfaced_for_display() {
    let (mut s, sid) = started(0);
    s.handle(Input::SilenceDetected, 1000);
    let cmds = s.handle(
        Input::Inbound {
            topic: format!("athena/sat/esp32-sat/session/{sid}/transcript"),
            payload: br#"{"text":"quelle heure est-il","is_final":true}"#.to_vec(),
        },
        2000,
    );
    let Command::ShowTranscript { text, is_final } = &cmds[0] else {
        panic!("expected ShowTranscript, got {cmds:?}");
    };
    assert_eq!(text, "quelle heure est-il");
    assert!(is_final);
}

#[test]
fn answer_text_is_surfaced_for_display() {
    let (mut s, sid) = started(0);
    s.handle(Input::SilenceDetected, 1000);
    let cmds = s.handle(
        Input::Inbound {
            topic: format!("athena/sat/esp32-sat/session/{sid}/tts/text"),
            payload: br#"{"text":"il est 15 h 14"}"#.to_vec(),
        },
        2000,
    );
    let Command::ShowAnswer(text) = &cmds[0] else {
        panic!("expected ShowAnswer, got {cmds:?}");
    };
    assert_eq!(text, "il est 15 h 14");
}

#[test]
fn malformed_display_payloads_are_ignored() {
    let (mut s, sid) = started(0);
    s.handle(Input::SilenceDetected, 1000);
    let cmds = s.handle(
        Input::Inbound {
            topic: format!("athena/sat/esp32-sat/session/{sid}/tts/text"),
            payload: b"not json".to_vec(),
        },
        2000,
    );
    assert!(cmds.is_empty());
}

#[test]
fn done_ends_session() {
    let (mut s, sid) = started(0);
    s.handle(Input::SilenceDetected, 1000);
    let cmds = s.handle(
        Input::Inbound {
            topic: format!("athena/sat/esp32-sat/session/{sid}/done"),
            payload: br#"{"outcome":"ok"}"#.to_vec(),
        },
        2000,
    );
    assert!(matches!(cmds[0], Command::SessionEnded));
    assert_eq!(*s.state(), State::Idle);
}

#[test]
fn reply_timeout_returns_to_idle() {
    let (mut s, _sid) = started(0);
    s.handle(Input::SilenceDetected, 1000);
    let cmds = s.handle(Input::Tick, 1000 + REPLY_TIMEOUT_MS + 1);
    assert!(matches!(cmds[0], Command::SessionEnded));
    assert_eq!(*s.state(), State::Idle);
}

#[test]
fn playing_also_times_out() {
    let (mut s, sid) = started(0);
    s.handle(Input::SilenceDetected, 1000);
    s.handle(
        Input::Inbound {
            topic: format!("athena/sat/esp32-sat/session/{sid}/tts/meta"),
            payload: br#"{"sample_rate":24000}"#.to_vec(),
        },
        2000,
    );
    let cmds = s.handle(Input::Tick, 1000 + REPLY_TIMEOUT_MS + 1);
    assert!(matches!(cmds[0], Command::SessionEnded));
    assert_eq!(*s.state(), State::Idle);
}

#[test]
fn inbound_for_other_session_is_ignored() {
    let (mut s, _sid) = started(0);
    s.handle(Input::SilenceDetected, 1000);
    let cmds = s.handle(
        Input::Inbound {
            topic: "athena/sat/esp32-sat/session/00000000-0000-4000-8000-000000000000/done"
                .into(),
            payload: vec![],
        },
        2000,
    );
    assert!(cmds.is_empty());
    assert_eq!(*s.state(), State::AwaitingReply);
}

#[test]
fn trigger_while_busy_is_ignored() {
    let (mut s, _sid) = started(0);
    let cmds = s.handle(Input::Trigger, 100);
    assert!(cmds.is_empty());
    assert_eq!(*s.state(), State::Streaming);
}

#[test]
fn mic_frames_outside_streaming_are_dropped() {
    let mut s = Session::new("esp32-sat", "fr");
    assert!(s.handle(Input::MicFrame(vec![1]), 0).is_empty());
}

#[test]
fn subscriptions_cover_the_five_response_topics() {
    let subs = Session::subscriptions("esp32-sat");
    assert_eq!(
        subs,
        [
            "athena/sat/esp32-sat/session/+/transcript".to_string(),
            "athena/sat/esp32-sat/session/+/tts".to_string(),
            "athena/sat/esp32-sat/session/+/tts/meta".to_string(),
            "athena/sat/esp32-sat/session/+/tts/text".to_string(),
            "athena/sat/esp32-sat/session/+/done".to_string(),
        ]
    );
}

#[test]
fn ignored_inputs_change_nothing_at_any_clock_value() {
    let mut s = Session::new("esp32-sat", "fr");
    assert!(s.handle(Input::MicFrame(vec![1, 2]), u64::MAX).is_empty());
    assert!(s.handle(Input::SilenceDetected, u64::MAX).is_empty());
    assert!(s.handle(Input::Tick, u64::MAX).is_empty());
    assert_eq!(*s.state(), State::Idle);
    let (mut s, sid) = started(0);
    assert!(s.handle(Input::Trigger, u64::MAX).is_empty());
    assert_eq!(*s.state(), State::Streaming);
    let cmds = s.handle(Input::MicFrame(vec![9]), 5);
    assert_eq!(sid_from_start_topic(&cmds), sid);
}
