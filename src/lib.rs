pub mod account;
pub mod clock;
pub mod config;
pub mod errors;
pub mod jwt;
pub mod message;
pub mod password;
pub mod state;
pub mod store;
