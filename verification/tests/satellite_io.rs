use athena_voice::satellite::net::implausible_filter;
use athena_voice::satellite::speaker::{playback_step, Playback, Speaker, SpeakerMsg, DEFAULT_RATE};
use athena_voice::storage::tmp::MemoryTmpStore;

#[test]
fn speaker_queues_in_order_and_rebuilds_on_rate_change() {
    let mut spk = Speaker::new();
    spk.set_sample_rate(16_000);
    spk.enqueue(vec![1, 2]);
    let msgs = spk.take_queued();
    assert_eq!(msgs, vec![SpeakerMsg::Rate(16_000), SpeakerMsg::Chunk(vec![1, 2])]);
    assert!(spk.take_queued().is_empty());
    assert_eq!(playback_step(DEFAULT_RATE, SpeakerMsg::Rate(16_000)), (16_000, Playback::Rebuild));
    assert_eq!(playback_step(16_000, SpeakerMsg::Rate(16_000)), (16_000, Playback::Keep));
    assert_eq!(playback_step(16_000, SpeakerMsg::Chunk(vec![9])), (16_000, Playback::Play(vec![9])));
}

#[test]
fn implausible_topic_filters_are_named() {
    let ok: [String; 5] = std::array::from_fn(|i| format!("assist/sat/x/session/+/{i}"));
    assert_eq!(implausible_filter(&ok), None);
    let mut bad = ok.clone();
    bad[3] = String::new();
    assert_eq!(implausible_filter(&bad), Some(3));
    bad[1] = "t".repeat(513);
    assert_eq!(implausible_filter(&bad), Some(1));
}

#[test]
fn tmp_values_expire() {
    let mut store = MemoryTmpStore::new();
    store.tmp_set_at("timer", "a", vec![1], 10, 100);
    assert_eq!(store.tmp_get_at("timer", "a", 109), Some(vec![1]));
    assert_eq!(store.tmp_get_at("other", "a", 109), None);
    assert_eq!(store.tmp_get_at("timer", "a", 110), None);
    assert_eq!(store.tmp_get_at("timer", "a", 100), None);
    store.tmp_set_at("timer", "b", vec![2], 5, 100);
    store.tmp_set_at("timer", "c", vec![3], 50, 100);
    store.tmp_gc(120);
    assert_eq!(store.tmp_get_at("timer", "b", 0), None);
    assert_eq!(store.tmp_get_at("timer", "c", 0), Some(vec![3]));
    store.tmp_set("timer", "d", vec![4], 3600);
    assert_eq!(store.tmp_get("timer", "d"), Some(vec![4]));
}
