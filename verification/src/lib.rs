pub mod auth;
pub mod configuration;
pub mod kvstore;
pub mod server;
