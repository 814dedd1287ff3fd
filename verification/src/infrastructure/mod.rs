pub mod chat_store;
pub mod connections;
pub mod dtos;
pub mod peer_store;
pub mod wire_protocol;
