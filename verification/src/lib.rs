//! Core of a terminal chat client: the conversation history shared between one
//! writer and its readers, the decoder of the streamed chat protocol, and the
//! decisions of the supervisor that provisions and runs the agent host. The
//! decisions of the interface are here too, as far as they need no terminal.
//!
//! Nothing in this library reads a file, a socket or a terminal, and it looks
//! at the clock only to stamp a new message. Each operation takes what was
//! read and says what to do next; the program around it does the reading and
//! the doing.

pub mod chat;
pub mod client;
pub mod host;
pub mod json;
pub mod lines;
pub mod logger;
pub mod message;
pub mod session;
pub mod shared;
pub mod text;
pub mod tui;
pub mod widget;
