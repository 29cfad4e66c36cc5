//! Credential lifecycle management for a chat bot: acquiring, validating,
//! renewing and persisting the application and user credentials, together
//! with the command handling that consumes them.

pub mod auth;
pub mod callback;
pub mod clock;
pub mod config;
pub mod credential;
pub mod database;
pub mod error;
pub mod laws;
pub mod lifecycle;
pub mod messages;
pub mod session;
pub mod text;
