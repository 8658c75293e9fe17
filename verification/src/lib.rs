pub mod apub;
pub mod clock;
pub mod db;
pub mod errors;
pub mod hancock;
pub mod handlers;
pub mod state;
pub mod strings;
