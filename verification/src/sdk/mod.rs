pub mod host;
pub mod response;
pub mod schema;
pub mod skill;
