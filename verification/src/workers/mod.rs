//! The MQTT speech workers: the STT worker's session buffering and
//! transcript cleanup, and the TTS worker's request reading and response
//! chunking. Processes, files and the broker connection stay with the
//! executables; these are their decisions.
pub mod stt;
pub mod tts;
