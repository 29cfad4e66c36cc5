//! Chat messages and the commands that answer them.

pub mod commands;
pub mod command;
pub mod processor;
