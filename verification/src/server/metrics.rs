//! Run-time metrics for VAD, hotword detection, ASR and TTS: invocation
//! counts, total durations and success counts. Counters wrap on overflow,
//! as atomic adds do.
use vstd::prelude::*;
use crate::text::{decimal, owned, u64_to_decimal};

verus! {

/// The metrics counters.
#[derive(Debug, Clone, Copy, PartialEq, Eq, Structural)]
pub struct Metrics {
    pub vad_invocations: u64,
    pub vad_duration_ns: u64,
    pub hotword_invocations: u64,
    pub hotword_duration_ns: u64,
    pub asr_invocations: u64,
    pub asr_duration_ns: u64,
    pub tts_invocations: u64,
    pub tts_duration_ns: u64,
    pub hotword_detections: u64,
    pub asr_successes: u64,
    pub tts_successes: u64,
}

impl Default for Metrics {
    fn default() -> (m: Self)
        ensures
            m == zero_metrics(),
    {
        Metrics {
            vad_invocations: 0,
            vad_duration_ns: 0,
            hotword_invocations: 0,
            hotword_duration_ns: 0,
            asr_invocations: 0,
            asr_duration_ns: 0,
            tts_invocations: 0,
            tts_duration_ns: 0,
            hotword_detections: 0,
            asr_successes: 0,
            tts_successes: 0,
        }
    }
}

/// All counters at zero.
pub open spec fn zero_metrics() -> Metrics {
    Metrics {
        vad_invocations: 0,
        vad_duration_ns: 0,
        hotword_invocations: 0,
        hotword_duration_ns: 0,
        asr_invocations: 0,
        asr_duration_ns: 0,
        tts_invocations: 0,
        tts_duration_ns: 0,
        hotword_detections: 0,
        asr_successes: 0,
        tts_successes: 0,
    }
}

/// `x + y` modulo 2^64.
pub open spec fn wrap_add(x: u64, y: u64) -> u64 {
    ((x as int + y as int) % 0x1_0000_0000_0000_0000) as u64
}

fn plus(x: u64, y: u64) -> (r: u64)
    ensures
        r == wrap_add(x, y),
{
    x.wrapping_add(y)
}

/// Records one VAD pass that took `ns` nanoseconds.
pub fn record_vad(m: &mut Metrics, ns: u64)
    ensures
        *final(m) == (Metrics {
            vad_invocations: wrap_add(old(m).vad_invocations, 1),
            vad_duration_ns: wrap_add(old(m).vad_duration_ns, ns),
            ..*old(m)
        }),
{
    m.vad_invocations = plus(m.vad_invocations, 1);
    m.vad_duration_ns = plus(m.vad_duration_ns, ns);
}

/// Records one hotword pass that took `ns` nanoseconds, and whether it
/// detected the hotword.
pub fn record_hotword(m: &mut Metrics, ns: u64, detected: bool)
    ensures
        *final(m) == (Metrics {
            hotword_invocations: wrap_add(old(m).hotword_invocations, 1),
            hotword_duration_ns: wrap_add(old(m).hotword_duration_ns, ns),
            hotword_detections: if detected { wrap_add(old(m).hotword_detections, 1) } else { old(m).hotword_detections },
            ..*old(m)
        }),
{
    m.hotword_invocations = plus(m.hotword_invocations, 1);
    m.hotword_duration_ns = plus(m.hotword_duration_ns, ns);
    if detected {
        m.hotword_detections = plus(m.hotword_detections, 1);
    }
}

/// Records one ASR pass that took `ns` nanoseconds, and whether it
/// succeeded.
pub fn record_asr(m: &mut Metrics, ns: u64, success: bool)
    ensures
        *final(m) == (Metrics {
            asr_invocations: wrap_add(old(m).asr_invocations, 1),
            asr_duration_ns: wrap_add(old(m).asr_duration_ns, ns),
            asr_successes: if success { wrap_add(old(m).asr_successes, 1) } else { old(m).asr_successes },
            ..*old(m)
        }),
{
    m.asr_invocations = plus(m.asr_invocations, 1);
    m.asr_duration_ns = plus(m.asr_duration_ns, ns);
    if success {
        m.asr_successes = plus(m.asr_successes, 1);
    }
}

/// Records one TTS pass that took `ns` nanoseconds, and whether it
/// succeeded.
pub fn record_tts(m: &mut Metrics, ns: u64, success: bool)
    ensures
        *final(m) == (Metrics {
            tts_invocations: wrap_add(old(m).tts_invocations, 1),
            tts_duration_ns: wrap_add(old(m).tts_duration_ns, ns),
            tts_successes: if success { wrap_add(old(m).tts_successes, 1) } else { old(m).tts_successes },
            ..*old(m)
        }),
{
    m.tts_invocations = plus(m.tts_invocations, 1);
    m.tts_duration_ns = plus(m.tts_duration_ns, ns);
    if success {
        m.tts_successes = plus(m.tts_successes, 1);
    }
}

/// Mean duration: total over count, the count taken as at least one.
pub open spec fn mean(total: u64, count: u64) -> nat {
    (total / (if count == 0 { 1 } else { count })) as nat
}

/// The JSON snapshot the event socket publishes every second, keys in
/// sorted order (as `serde_json` writes its maps).
pub open spec fn snapshot_json(m: Metrics) -> Seq<char> {
    "{\"asr\":{\"avg_duration_ns\":"@ + decimal(mean(m.asr_duration_ns, m.asr_invocations))
        + ",\"invocations\":"@ + decimal(m.asr_invocations as nat)
        + ",\"successes\":"@ + decimal(m.asr_successes as nat)
        + "},\"hotword\":{\"avg_duration_ns\":"@ + decimal(mean(m.hotword_duration_ns, m.hotword_invocations))
        + ",\"detections\":"@ + decimal(m.hotword_detections as nat)
        + ",\"invocations\":"@ + decimal(m.hotword_invocations as nat)
        + "},\"tts\":{\"avg_duration_ns\":"@ + decimal(mean(m.tts_duration_ns, m.tts_invocations))
        + ",\"invocations\":"@ + decimal(m.tts_invocations as nat)
        + ",\"successes\":"@ + decimal(m.tts_successes as nat)
        + "},\"vad\":{\"avg_duration_ns\":"@ + decimal(mean(m.vad_duration_ns, m.vad_invocations))
        + ",\"invocations\":"@ + decimal(m.vad_invocations as nat) + "}}"@
}

fn mean_exec(total: u64, count: u64) -> (r: u64)
    ensures
        r == mean(total, count),
{
    total / if count == 0 { 1 } else { count }
}

/// The metrics snapshot as JSON text.
pub fn snapshot(m: &Metrics) -> (s: String)
    ensures
        s@ == snapshot_json(*m),
{
    let mut out = owned("{\"asr\":{\"avg_duration_ns\":");
    out.append(u64_to_decimal(mean_exec(m.asr_duration_ns, m.asr_invocations)).as_str());
    out.append(",\"invocations\":");
    out.append(u64_to_decimal(m.asr_invocations).as_str());
    out.append(",\"successes\":");
    out.append(u64_to_decimal(m.asr_successes).as_str());
    out.append("},\"hotword\":{\"avg_duration_ns\":");
    out.append(u64_to_decimal(mean_exec(m.hotword_duration_ns, m.hotword_invocations)).as_str());
    out.append(",\"detections\":");
    out.append(u64_to_decimal(m.hotword_detections).as_str());
    out.append(",\"invocations\":");
    out.append(u64_to_decimal(m.hotword_invocations).as_str());
    out.append("},\"tts\":{\"avg_duration_ns\":");
    out.append(u64_to_decimal(mean_exec(m.tts_duration_ns, m.tts_invocations)).as_str());
    out.append(",\"invocations\":");
    out.append(u64_to_decimal(m.tts_invocations).as_str());
    out.append(",\"successes\":");
    out.append(u64_to_decimal(m.tts_successes).as_str());
    out.append("},\"vad\":{\"avg_duration_ns\":");
    out.append(u64_to_decimal(mean_exec(m.vad_duration_ns, m.vad_invocations)).as_str());
    out.append(",\"invocations\":");
    out.append(u64_to_decimal(m.vad_invocations).as_str());
    out.append("}}");
    out
}

} // verus!
