pub mod actions;
pub mod models;
pub mod rsa;
pub mod serializers;
pub mod uri;
pub mod username;
pub mod webfinger;
