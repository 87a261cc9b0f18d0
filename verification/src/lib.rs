//! Core state and decisions of a terminal chat client: the prompt being typed,
//! the saved conversation and its scrolling, the error banner, the event queue,
//! the model-selection popup, the screen layout, the request/reply handling of
//! the chat service, and the state machine that ties them together.
//!
//! Terminal drawing, key reading and HTTP transport live outside this crate;
//! they feed plain values in and perform the effects this crate decides on.

pub mod text;
pub mod prompt_handler;
pub mod error_handler;
pub mod event_handler;
pub mod ui_handler;
pub mod conversation_handler;
pub mod network_handler;
pub mod application;
pub mod laws;
