//! Peer-to-peer chat: the domain model, the use cases as verified state
//! machines, the in-memory stores behind the repositories, the persistence
//! and wire records, and the terminal user interface state.

pub mod domain;
pub mod address_map;
pub mod application;
pub mod infrastructure;
pub mod presentation;
