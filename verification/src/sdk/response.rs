//! What a skill answers, and how it fails.
use vstd::prelude::*;
use vstd::string::*;
use crate::text::{cat, owned};

verus! {

#[derive(Debug, Clone)]
pub enum SkillResponse {
    /// Skill produced a spoken response.
    Speak { text: String },
    /// Skill executed silently (e.g. side-effect only).
    Empty,
    /// Skill wants the host to consult the LLM with the supplied prompt.
    AskLlm { prompt: String },
    /// Sampled PCM audio for immediate playback; each sample is the IEEE-754
    /// bit pattern of an `f32`.
    SampledPcm { sample_rate: u32, samples: Vec<u32> },
    /// Opus-encoded audio frames for efficient playback.
    SampledOpus { opus_frames: Vec<u8> },
    /// Adjust the playback volume; the IEEE-754 bit pattern of an `f32`
    /// level (0.0 = mute, 1.0 = nominal, 1.5 = 50% boost).
    Volume(u32),
}

/// The text of a `Speak` response, if it is one.
pub open spec fn spoken(r: SkillResponse) -> Option<Seq<char>> {
    match r {
        SkillResponse::Speak { text } => Some(text@),
        _ => None,
    }
}

impl SkillResponse {
    pub fn speak(text: &str) -> (r: Self)
        ensures
            spoken(r) == Some(text@),
    {
        SkillResponse::Speak { text: owned(text) }
    }

    pub fn speak_owned(text: String) -> (r: Self)
        ensures
            spoken(r) == Some(text@),
    {
        SkillResponse::Speak { text }
    }

    pub fn empty() -> (r: Self)
        ensures
            r is Empty,
    {
        SkillResponse::Empty
    }

    pub fn ask_llm(prompt: &str) -> (r: Self)
        ensures
            r matches SkillResponse::AskLlm { prompt: p } && p@ == prompt@,
    {
        SkillResponse::AskLlm { prompt: owned(prompt) }
    }

    pub fn sampled_pcm(sample_rate: u32, samples: Vec<u32>) -> (r: Self)
        ensures
            r matches SkillResponse::SampledPcm { sample_rate: s, samples: v } && s == sample_rate && v@ == samples@,
    {
        SkillResponse::SampledPcm { sample_rate, samples }
    }

    pub fn sampled_opus(opus_frames: Vec<u8>) -> (r: Self)
        ensures
            r matches SkillResponse::SampledOpus { opus_frames: v } && v@ == opus_frames@,
    {
        SkillResponse::SampledOpus { opus_frames }
    }
}

#[derive(Debug, Clone)]
pub enum SkillError {
    HttpFailed(String),
    MqttFailed(String),
    State(String),
    Custom(String),
}

/// The human-readable form of an error.
pub open spec fn error_message(e: SkillError) -> Seq<char> {
    match e {
        SkillError::HttpFailed(m) => "http failed: "@ + m@,
        SkillError::MqttFailed(m) => "mqtt failed: "@ + m@,
        SkillError::State(m) => "state error: "@ + m@,
        SkillError::Custom(m) => "custom: "@ + m@,
    }
}

impl SkillError {
    /// The error's display text, e.g. `http failed: <detail>`.
    pub fn message(&self) -> (m: String)
        ensures
            m@ == error_message(*self),
    {
        match self {
            SkillError::HttpFailed(m) => cat("http failed: ", m.as_str()),
            SkillError::MqttFailed(m) => cat("mqtt failed: ", m.as_str()),
            SkillError::State(m) => cat("state error: ", m.as_str()),
            SkillError::Custom(m) => cat("custom: ", m.as_str()),
        }
    }
}

} // verus!
