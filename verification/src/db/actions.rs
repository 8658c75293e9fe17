pub mod actor;
pub mod follow;
pub mod user;
