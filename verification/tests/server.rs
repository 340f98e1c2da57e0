use athena_voice::server::asr::WhisperAsr;
use athena_voice::server::hotword::HotwordDetector;
use athena_voice::server::metrics::{record_asr, record_hotword, record_tts, record_vad, snapshot, Metrics};
use athena_voice::server::socket::{msg_to_frame, CodecError, Op, SocketCodec};
use athena_voice::server::vad::{split_voice_segments, VadDetector};
use athena_voice::webrtcvad::Vad;

fn pcm_bytes(samples: &[i16]) -> Vec<u8> {
    let mut buf = Vec::with_capacity(samples.len() * 2);
    for s in samples {
        buf.extend_from_slice(&s.to_le_bytes());
    }
    buf
}

#[test]
fn silence_yields_no_voice_segments() {
    let vad = VadDetector::new(2).expect("vad");
    let silence = vec![0i16; 4_800];
    let segments = split_voice_segments(&vad, &pcm_bytes(&silence));
    assert!(segments.is_empty(), "silence must not produce segments");
}

#[test]
fn loud_signal_yields_voice_segments() {
    let vad = VadDetector::new(2).expect("vad");
    let loud: Vec<i16> = (0..4_800).map(|i| if i % 2 == 0 { 12_000 } else { -12_000 }).collect();
    let segments = split_voice_segments(&vad, &pcm_bytes(&loud));
    assert!(!segments.is_empty(), "loud signal must produce segments");
    let total: usize = segments.iter().map(Vec::len).sum();
    assert!(total > 0);
}

#[test]
fn short_buffer_is_not_voice() {
    let vad = VadDetector::new(2).expect("vad");
    assert!(!vad.process(&[10_000i16; 100]));
}

#[test]
fn a_silent_frame_splits_voice_segments_and_partial_frames_are_ignored() {
    let vad = VadDetector::new(0).expect("vad");
    let mut samples = vec![5_000i16; 480];
    samples.extend(vec![0i16; 480]);
    samples.extend(vec![-5_000i16; 480]);
    samples.extend(vec![7_000i16; 480]);
    samples.extend(vec![9_000i16; 100]);
    let segments = split_voice_segments(&vad, &pcm_bytes(&samples));
    assert_eq!(segments.len(), 2);
    assert_eq!(segments[0].len(), 960);
    assert_eq!(&segments[0][..2], &5_000i16.to_le_bytes());
    assert_eq!(segments[1].len(), 2 * 960);
    assert_eq!(&segments[1][..2], &(-5_000i16).to_le_bytes());
    assert_eq!(&segments[1][960..962], &7_000i16.to_le_bytes());
}

#[test]
fn energy_threshold_is_strict() {
    assert!(!Vad.is_voice_segment(&[300, -300, 300]));
    assert!(Vad.is_voice_segment(&[301, -301]));
    assert!(!Vad.is_voice_segment(&[]));
    assert!(VadDetector::new(1).unwrap().process(&[-400i16; 480]));
}

#[test]
fn frames_roundtrip_through_the_codec() {
    let mut codec = SocketCodec;
    let mut buf = Vec::new();
    codec.encode((Op::Audio, vec![1, 2, 3]), &mut buf).unwrap();
    codec.encode((Op::Transcript, b"{}".to_vec()), &mut buf).unwrap();
    assert_eq!(&buf[..4], &[0xAE, 0x01, 0x00, 0x03]);
    assert_eq!(codec.decode(&mut buf).unwrap(), Some((Op::Audio, vec![1, 2, 3])));
    assert_eq!(codec.decode(&mut buf).unwrap(), Some((Op::Transcript, b"{}".to_vec())));
    assert!(buf.is_empty());
    assert_eq!(codec.decode(&mut buf).unwrap(), None);
}

#[test]
fn partial_frames_wait_and_bad_frames_fail() {
    let mut codec = SocketCodec;
    let frame = msg_to_frame((Op::Audio, vec![7; 300])).unwrap();
    assert_eq!(&frame[..4], &[0xAE, 0x01, 0x01, 0x2C]);
    let mut partial = frame[..100].to_vec();
    assert_eq!(codec.decode(&mut partial).unwrap(), None);
    assert_eq!(partial.len(), 100);
    let mut bad = vec![0xAF, 1, 0, 0];
    assert_eq!(codec.decode(&mut bad), Err(CodecError::InvalidHeader(0xAF)));
    let mut bad_op = vec![0xAE, 9, 0, 0];
    let err = codec.decode(&mut bad_op).unwrap_err();
    assert_eq!(err, CodecError::InvalidOperation(9));
    assert_eq!(err.message(), "Invalid operation code: 9");
    assert_eq!(Op::try_from(2), Ok(Op::Transcript));
}

#[test]
fn metrics_count_and_average() {
    let mut m = Metrics::default();
    record_vad(&mut m, 100);
    record_vad(&mut m, 300);
    record_hotword(&mut m, 50, true);
    record_asr(&mut m, 1_000, false);
    record_tts(&mut m, 10, true);
    assert_eq!(m.vad_invocations, 2);
    assert_eq!(m.hotword_detections, 1);
    assert_eq!(m.asr_successes, 0);
    assert_eq!(
        snapshot(&m),
        r#"{"asr":{"avg_duration_ns":1000,"invocations":1,"successes":0},"hotword":{"avg_duration_ns":50,"detections":1,"invocations":1},"tts":{"avg_duration_ns":10,"invocations":1,"successes":1},"vad":{"avg_duration_ns":200,"invocations":2}}"#
    );
    m.tts_duration_ns = u64::MAX;
    record_tts(&mut m, 2, false);
    assert_eq!(m.tts_duration_ns, 1);
}

#[test]
fn model_front_ends_answer_fixed_values() {
    let asr = WhisperAsr::load("/models/ggml-small.bin").unwrap();
    assert_eq!(asr.transcribe(&[0; 10]).unwrap(), "Athéna detected");
    let hw = HotwordDetector::load("/models").unwrap();
    assert!(hw.detect(&[]));
    assert_eq!(hw.sample_rate(), 16000);
}
