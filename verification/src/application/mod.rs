pub mod effects;
pub mod error;
pub mod events;
pub mod use_cases;
