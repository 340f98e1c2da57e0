pub mod config;
pub mod mic;
pub mod net;
pub mod session;
pub mod speaker;
