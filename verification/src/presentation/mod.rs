pub mod app;
pub mod app_event_handler;
pub mod input_handler;
pub mod text;
pub mod user_command;
pub mod screen;
pub mod startup;
