//! Voice activity detection over 48 kHz mono PCM, in 10 ms frames.
use vstd::prelude::*;
use crate::webrtcvad::{Vad, voiced};

verus! {

/// Voice activity detector: 10 ms frames of 48 kHz mono audio.
#[derive(Debug, Clone, Copy)]
pub struct VadDetector {
    vad: Vad,
    sample_rate: u32,
    frame_ms: u32,
}

/// Samples in one frame: 48 kHz for 10 ms.
pub open spec fn frame_samples() -> nat {
    480
}

/// The 16-bit sample whose little-endian bytes are `lo`, `hi`.
pub open spec fn le_i16(lo: u8, hi: u8) -> i16 {
    let v = hi as int * 256 + lo as int;
    (if v >= 32768 { v - 65536 } else { v }) as i16
}

fn from_le(lo: u8, hi: u8) -> (r: i16)
    ensures
        r == le_i16(lo, hi),
{
    let v: i32 = (hi as i32) * 256 + lo as i32;
    (if v >= 32768 { v - 65536 } else { v }) as i16
}

/// The samples of frame `k` of little-endian PCM bytes.
pub open spec fn frame_at(audio: Seq<u8>, k: int) -> Seq<i16> {
    Seq::new(480, |j: int| le_i16(audio[960 * k + 2 * j], audio[960 * k + 2 * j + 1]))
}

/// The bytes of frame `k`.
pub open spec fn frame_bytes(audio: Seq<u8>, k: int) -> Seq<u8> {
    audio.subrange(960 * k, 960 * (k + 1))
}

/// After the first `n` whole frames: the voice segments already closed by
/// a silent frame, and the bytes of the run of voiced frames still open
/// (empty when the last frame was silent).
pub open spec fn split_state(audio: Seq<u8>, n: nat) -> (Seq<Seq<u8>>, Seq<u8>)
    decreases n,
{
    if n == 0 {
        (seq![], seq![])
    } else {
        let (closed, run) = split_state(audio, (n - 1) as nat);
        if voiced(frame_at(audio, n - 1)) {
            (closed, run + frame_bytes(audio, n - 1))
        } else if run.len() > 0 {
            (closed.push(run), seq![])
        } else {
            (closed, seq![])
        }
    }
}

/// Voice segments of PCM bytes: one segment per maximal run of voiced
/// frames, each the bytes of its frames in order; a trailing partial frame
/// is ignored.
pub open spec fn segments_spec(audio: Seq<u8>) -> Seq<Seq<u8>> {
    let (closed, run) = split_state(audio, audio.len() / 960);
    if run.len() == 0 { closed } else { closed.push(run) }
}

impl VadDetector {
    #[verifier::type_invariant]
    spec fn inv(self) -> bool {
        self.sample_rate == 48000 && self.frame_ms == 10
    }

    /// A detector for 48 kHz mono audio in 10 ms frames; the aggressiveness
    /// is accepted for the WebRTC API's sake.
    pub fn new(aggressiveness: u8) -> (r: Result<Self, anyhow::Error>)
        ensures
            r is Ok,
    {
        Ok(VadDetector { vad: Vad, sample_rate: 48000, frame_ms: 10 })
    }

    /// Whether the first frame of `audio` is voiced; false when `audio` is
    /// shorter than a frame.
    pub fn process(&self, audio: &[i16]) -> (r: bool)
        ensures
            r == (audio@.len() >= 480 && voiced(audio@.take(480))),
    {
        proof {
            use_type_invariant(self);
        }
        let frame_len = (self.sample_rate / 1000 * self.frame_ms) as usize;
        if audio.len() < frame_len {
            return false;
        }
        let mut frame: Vec<i16> = Vec::new();
        let mut i: usize = 0;
        while i < frame_len
            invariant
                frame_len == 480,
                i <= frame_len <= audio.len(),
                frame@ == audio@.take(i as int),
            decreases frame_len - i,
        {
            frame.push(audio[i]);
            assert(audio@.take(i + 1) == audio@.take(i as int).push(audio@[i as int]));
            i = i + 1;
        }
        self.vad.is_voice_segment(frame.as_slice())
    }
}

/// Splits little-endian 16-bit PCM bytes into voice segments: a silent
/// frame closes the segment under way.
pub fn split_voice_segments(vad: &VadDetector, audio: &[u8]) -> (segments: Vec<Vec<u8>>)
    ensures
        segments@.map_values(|s: Vec<u8>| s@) == segments_spec(audio@),
{
    let mut segments: Vec<Vec<u8>> = Vec::new();
    let mut current: Vec<u8> = Vec::new();
    let mut cursor: usize = 0;
    let ghost mut k: nat = 0;
    while cursor <= audio.len() && audio.len() - cursor >= 960
        invariant
            cursor == 960 * k,
            cursor <= audio.len(),
            segments@.map_values(|s: Vec<u8>| s@) == split_state(audio@, k).0,
            current@ == split_state(audio@, k).1,
        decreases audio.len() - cursor,
    {
        let mut samples: Vec<i16> = Vec::new();
        let mut j: usize = 0;
        while j < 480
            invariant
                cursor == 960 * k,
                cursor + 960 <= audio.len(),
                j <= 480,
                samples@ == frame_at(audio@, k as int).take(j as int),
            decreases 480 - j,
        {
            let s = from_le(audio[cursor + 2 * j], audio[cursor + 2 * j + 1]);
            samples.push(s);
            assert(samples@ =~= frame_at(audio@, k as int).take(j + 1));
            j = j + 1;
        }
        assert(samples@ =~= frame_at(audio@, k as int));
        assert(samples@.take(480) =~= samples@);
        let ghost before = current@;
        let ghost closed = segments@.map_values(|s: Vec<u8>| s@);
        if vad.process(samples.as_slice()) {
            let mut b: usize = 0;
            while b < 960
                invariant
                    cursor + 960 <= audio.len(),
                    b <= 960,
                    current@ == before + audio@.subrange(cursor as int, cursor + b),
                decreases 960 - b,
            {
                current.push(audio[cursor + b]);
                assert(audio@.subrange(cursor as int, cursor + b + 1) == audio@.subrange(cursor as int, cursor + b).push(audio@[cursor + b]));
                b = b + 1;
            }
            assert(current@ == before + frame_bytes(audio@, k as int));
        } else if current.len() > 0 {
            let run = current;
            current = Vec::new();
            segments.push(run);
            assert(segments@.map_values(|s: Vec<u8>| s@) =~= closed.push(before));
            assert(current@ =~= seq![]);
        } else {
            assert(current@ =~= seq![]);
        }
        cursor = cursor + 960;
        proof {
            k = k + 1;
        }
    }
    assert(k == audio@.len() / 960);
    let ghost closed = segments@.map_values(|s: Vec<u8>| s@);
    if current.len() > 0 {
        segments.push(current);
        assert(segments@.map_values(|s: Vec<u8>| s@) =~= closed.push(split_state(audio@, k).1));
    }
    segments
}

} // verus!
