//! Hotword detection front end. The model is not wired yet: every load
//! succeeds and every frame counts as the hotword.
use vstd::prelude::*;

verus! {

/// Hotword detector.
#[derive(Debug)]
pub struct HotwordDetector;

impl HotwordDetector {
    /// Loads the model from `model_dir`.
    pub fn load(model_dir: &str) -> (r: Result<Self, anyhow::Error>)
        ensures
            r is Ok,
    {
        Ok(HotwordDetector)
    }

    /// Whether the audio holds the hotword.
    pub fn detect(&self, audio: &[i16]) -> (r: bool)
        ensures
            r,
    {
        true
    }

    /// The sample rate the detector expects.
    pub fn sample_rate(&self) -> (r: u32)
        ensures
            r == 16000,
    {
        16000
    }
}

} // verus!
