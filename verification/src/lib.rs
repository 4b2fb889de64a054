//! Command handlers of a small desktop application.
//!
//! The front-end names a command and receives one string in reply. This
//! crate holds the handlers behind those commands, each with a contract that
//! fixes its reply for every input.

pub mod handlers;

pub use handlers::{greet, my_custom_command};
