//! Persistence: the skills' short-lived key/value store.
pub mod tmp;
