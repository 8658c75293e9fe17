pub mod actors;
