pub mod authentication;
pub mod config;
pub mod errors;
pub mod ownership;
pub mod password;
pub mod profanity;
pub mod token;
pub mod types;
pub mod wire;
