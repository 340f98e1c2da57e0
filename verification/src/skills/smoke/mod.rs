//! `smoke-test` skill pieces: the spoken time and the audio-playback rules.
pub mod audio;
pub mod time;
