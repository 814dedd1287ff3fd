pub mod chat;
pub mod error;
pub mod message;
pub mod peer;
