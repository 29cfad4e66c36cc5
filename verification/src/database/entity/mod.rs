//! The rows of the database.

pub mod chat_log_message;
pub mod chatter;
