//! The views of the application, each with its state and its events.

pub mod about;
pub mod list;
pub mod settings;
