use athena_voice::workers::stt::{clean_transcript, transcript_message, whisper_lang, SessionBuf, Sessions, SttAction};
use athena_voice::workers::tts::{downmix, parse_tts_request, response_messages, samples_per_chunk, TtsRequestError};

#[test]
fn chunking_math_never_zero() {
    let samples_per_chunk = samples_per_chunk(8, 10);
    assert_eq!(samples_per_chunk, 1);
}

#[test]
fn clean_transcript_strips_annotations_and_punctuation() {
    assert_eq!(clean_transcript("  Quel heure est-il ?\n"), "Quel heure est-il");
    assert_eq!(clean_transcript("[Musique]"), "");
    assert_eq!(clean_transcript(" Météo à Strasbourg ! "), "Météo à Strasbourg");
    assert_eq!(clean_transcript("(bruit) bonjour…"), "bonjour");
}

#[test]
fn chunk_size_follows_rate_and_duration() {
    assert_eq!(samples_per_chunk(22_050, 200), 4_410);
    assert_eq!(samples_per_chunk(16_000, 20), 320);
}

#[test]
fn downmix_averages_frames() {
    assert_eq!(downmix(vec![100, 200, 200, 400], 2), vec![150, 300]);
    assert_eq!(downmix(vec![-3, 0, 5], 2), vec![-1, 2]);
    assert_eq!(downmix(vec![1, 2, 3], 1), vec![1, 2, 3]);
}

#[test]
fn tts_requests_are_read_with_defaults() {
    let r = parse_tts_request(br#"{"session_id":"s1","text":"bonjour"}"#).unwrap();
    assert_eq!(r.session_id, "s1");
    assert_eq!(r.text, "bonjour");
    assert_eq!(r.locale, "fr");
    assert_eq!(parse_tts_request(b"{").unwrap_err(), TtsRequestError::NotJson);
    assert_eq!(parse_tts_request(br#"{"text":"x"}"#).unwrap_err(), TtsRequestError::MissingSessionId);
}

#[test]
fn tts_responses_declare_the_format_first() {
    let msgs = response_messages("s1", &[1, -1, 256], 16_000, 2);
    assert_eq!(msgs.len(), 3);
    assert_eq!(
        msgs[0],
        r#"{"channels":1,"chunk_b64":"AQD//w==","done":false,"format":"s16le","sample_rate":16000,"session_id":"s1"}"#
    );
    assert_eq!(msgs[1], r#"{"chunk_b64":"AAE=","done":false,"session_id":"s1"}"#);
    assert_eq!(msgs[2], r#"{"done":true,"session_id":"s1"}"#);
    let empty = response_messages("s2", &[], 22_050, 4_410);
    assert_eq!(
        empty,
        vec![r#"{"channels":1,"done":true,"format":"s16le","sample_rate":22050,"session_id":"s2"}"#.to_string()]
    );
}

#[test]
fn stt_sessions_buffer_and_cut_utterances() {
    let mut s = Sessions::new();
    assert!(matches!(s.step(br#"{"session_id":"a","locale":"en-US"}"#, 0), SttAction::Nothing));
    // 3201 zero bytes, base64.
    let b64 = "A".repeat(4268);
    let audio = format!(r#"{{"session_id":"a","audio_b64":"{b64}"}}"#);
    assert!(matches!(s.step(audio.as_bytes(), 10), SttAction::Nothing));
    match s.step(br#"{"session_id":"a","done":true}"#, 20) {
        SttAction::Transcribe { session_id, locale, pcm } => {
            assert_eq!(session_id, "a");
            assert_eq!(locale, "en-US");
            assert_eq!(pcm.len(), 3201);
        }
        SttAction::Nothing => panic!("expected a transcription"),
    }
    assert!(matches!(s.step(br#"{"session_id":"a","done":true}"#, 30), SttAction::Nothing));
    assert!(matches!(s.step(audio.as_bytes(), 200_000), SttAction::Nothing));
    assert!(matches!(s.step(br#"{"session_id":"a","done":true}"#, 200_001), SttAction::Transcribe { .. }));
    assert!(matches!(s.step(b"not json", 0), SttAction::Nothing));
}

#[test]
fn session_buffers_append() {
    let mut b = SessionBuf { pcm: vec![1], locale: "fr".into(), updated_ms: 0 };
    b.append(vec![2, 3], 42);
    assert_eq!(b.pcm, vec![1, 2, 3]);
    assert_eq!(b.updated_ms, 42);
}

#[test]
fn whisper_language_and_transcript_message() {
    assert_eq!(whisper_lang("fr-FR"), "fr");
    assert_eq!(whisper_lang("en_GB"), "en");
    assert_eq!(whisper_lang("de"), "de");
    assert_eq!(
        transcript_message("a", "bonjour \"toi\"").unwrap(),
        r#"{"is_final":true,"session_id":"a","text":"bonjour \"toi\""}"#
    );
    assert!(transcript_message("a", "").is_none());
}
