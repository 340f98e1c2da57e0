use athena_voice::satellite::mic::{LevelMeter, SilenceTracker, convert_inmp441};
#[test]
fn convert_shifts_32bit_slots_to_i16() {
    let raw = (1i32 << 20).to_le_bytes();
    let mut out = Vec::new();
    convert_inmp441(&raw, &mut out);
    assert_eq!(out, vec![64i16]);
}

#[test]
fn convert_clamps_instead_of_wrapping() {
    let raw = i32::MAX.to_le_bytes();
    let mut out = Vec::new();
    convert_inmp441(&raw, &mut out);
    assert_eq!(out, vec![i16::MAX]);
    let raw = i32::MIN.to_le_bytes();
    out.clear();
    convert_inmp441(&raw, &mut out);
    assert_eq!(out, vec![i16::MIN]);
}

#[test]
fn convert_clears_previous_output() {
    let raw = 0i32.to_le_bytes();
    let mut out = vec![7i16; 3];
    convert_inmp441(&raw, &mut out);
    assert_eq!(out, vec![0i16]);
}

#[test]
fn level_meter_reports_window_max_and_resets() {
    let mut meter = LevelMeter::new(3);
    let quiet = vec![10i16; 4];
    let loud = vec![-3000i16, 3000, -3000, 3000];
    assert_eq!(meter.push(&quiet), None);
    assert_eq!(meter.push(&loud), None);
    let (rms, peak) = meter.push(&quiet).expect("window complete");
    assert_eq!(peak, 3000);
    assert_eq!(rms, 3000); // max frame RMS in the window
    // Next window starts fresh.
    assert_eq!(meter.push(&quiet), None);
    assert_eq!(meter.push(&quiet), None);
    let (rms, peak) = meter.push(&quiet).expect("window complete");
    assert_eq!((rms, peak), (10, 10));
}

#[test]
fn tracker_fires_after_sustained_silence() {
    let mut t = SilenceTracker::new(500, 800, 20);
    let loud = vec![2000i16; 320];
    let quiet = vec![10i16; 320];
    assert!(!t.push(&loud));
    for _ in 0..39 {
        assert!(!t.push(&quiet)); // 780 ms of silence so far
    }
    assert!(t.push(&quiet)); // 800 ms reached
}

#[test]
fn loud_frame_resets_the_silence_run() {
    let mut t = SilenceTracker::new(500, 800, 20);
    let loud = vec![2000i16; 320];
    let quiet = vec![10i16; 320];
    for _ in 0..30 {
        t.push(&quiet);
    }
    t.push(&loud);
    for _ in 0..39 {
        assert!(!t.push(&quiet));
    }
    assert!(t.push(&quiet));
}

#[test]
fn reset_clears_the_run() {
    let mut t = SilenceTracker::new(500, 40, 20);
    let quiet = vec![0i16; 320];
    assert!(!t.push(&quiet));
    t.reset();
    assert!(!t.push(&quiet));
    assert!(t.push(&quiet));
}
