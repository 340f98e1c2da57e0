//! Energy-threshold voice activity detector with the WebRTC VAD's shape:
//! a frame is speech when its mean absolute amplitude crosses a fixed
//! threshold.
use vstd::prelude::*;

verus! {

/// Voice activity detector (energy threshold).
#[derive(Debug, Clone, Copy)]
pub struct Vad;

/// Aggressiveness modes mirroring the WebRTC VAD API.
#[derive(Debug, Clone, Copy, PartialEq, Eq, Structural)]
pub enum VadMode {
    Quality,
    LowBitrate,
    Aggressive,
    VeryAggressive,
}

/// The mean absolute amplitude above which a frame is speech.
pub const SPEECH_ENERGY: i64 = 300;

/// The sum of the absolute amplitudes of a frame.
pub open spec fn abs_sum(frame: Seq<i16>) -> int
    decreases frame.len(),
{
    if frame.len() == 0 {
        0
    } else {
        abs_sum(frame.drop_last()) + (if frame.last() < 0 { -(frame.last() as int) } else { frame.last() as int })
    }
}

/// A non-empty frame whose mean absolute amplitude (rounded down) exceeds
/// the threshold.
pub open spec fn voiced(frame: Seq<i16>) -> bool {
    frame.len() > 0 && abs_sum(frame) / (frame.len() as int) > 300
}

proof fn lemma_abs_sum_bound(frame: Seq<i16>)
    ensures
        0 <= abs_sum(frame) <= 32768 * frame.len(),
    decreases frame.len(),
{
    if frame.len() > 0 {
        lemma_abs_sum_bound(frame.drop_last());
    }
}

impl Vad {
    /// Whether the frame's mean absolute amplitude crosses the speech
    /// threshold.
    pub fn is_voice_segment(&self, frame: &[i16]) -> (r: bool)
        requires
            frame@.len() < 0x1_0000_0000_0000,
        ensures
            r == voiced(frame@),
    {
        if frame.len() == 0 {
            return false;
        }
        let mut energy: i64 = 0;
        let mut i: usize = 0;
        while i < frame.len()
            invariant
                i <= frame.len(),
                frame@.len() < 0x1_0000_0000_0000,
                energy == abs_sum(frame@.take(i as int)),
            decreases frame.len() - i,
        {
            proof {
                assert(frame@.take(i + 1).drop_last() == frame@.take(i as int));
                lemma_abs_sum_bound(frame@.take(i + 1));
                assert(32768 * (i + 1) < 32768 * 0x1_0000_0000_0000) by (nonlinear_arith)
                    requires i + 1 < 0x1_0000_0000_0000;
            }
            let s = frame[i] as i64;
            energy = energy + if s < 0 { -s } else { s };
            i = i + 1;
        }
        assert(frame@.take(frame.len() as int) == frame@);
        proof {
            lemma_abs_sum_bound(frame@);
        }
        let n = frame.len() as i64;
        assert(energy >= 0 && n > 0);
        let mean = energy / n;
        assert(mean == abs_sum(frame@) / (frame@.len() as int));
        mean > 300
    }
}

} // verus!
