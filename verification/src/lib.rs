pub mod json;
pub mod satellite;
pub mod sdk;
pub mod server;
pub mod skills;
pub mod storage;
pub mod text;
pub mod webrtcvad;
pub mod workers;
