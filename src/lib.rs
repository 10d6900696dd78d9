//! A relay between a chat and a language-model completion service.
//!
//! The library decides, for each inbound chat message, whether the bot was
//! mentioned, what completion request to send, and which reply goes back to
//! the chat for every possible answer of the service. The program around it
//! performs the network calls.
pub mod completion;
pub mod config;
pub mod handler;
pub mod text;
