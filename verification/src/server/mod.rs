//! The voice server: voice activity detection over PCM frames, the framed
//! socket protocol, run-time metrics, and the speech-model front ends.
use vstd::prelude::*;

pub mod asr;
pub mod config;
pub mod hotword;
pub mod metrics;
pub mod socket;
pub mod vad;

verus! {

/// `anyhow::Error`, the error the model front ends report.
#[verifier::external_type_specification]
#[verifier::external_body]
pub struct ExAnyhowError(anyhow::Error);

} // verus!
