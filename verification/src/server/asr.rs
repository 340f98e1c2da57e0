//! Whisper ASR front end. The model is not wired yet: every load succeeds
//! and every transcription is the fixed wake confirmation.
use vstd::prelude::*;
use crate::text::owned;

verus! {

/// Whisper ASR model.
#[derive(Debug)]
pub struct WhisperAsr;

/// What the front end transcribes, whatever it hears.
pub open spec fn fixed_transcript() -> Seq<char> {
    "Athéna detected"@
}

impl WhisperAsr {
    /// Loads the model at `model_path`.
    pub fn load(model_path: &str) -> (r: Result<Self, anyhow::Error>)
        ensures
            r is Ok,
    {
        Ok(WhisperAsr)
    }

    /// Transcribes 16-bit PCM audio.
    pub fn transcribe(&self, audio: &[i16]) -> (r: Result<String, anyhow::Error>)
        ensures
            r matches Ok(t) && t@ == fixed_transcript(),
    {
        Ok(owned("Athéna detected"))
    }
}

} // verus!
