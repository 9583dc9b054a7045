//! The dialogue of a document-conversion bot and the bookkeeping of its jobs.
//!
//! A user is led through a request step by step: the type of the document,
//! the type to convert it to, then the document itself. The conversion is
//! done elsewhere: the request goes out on a queue, and whatever comes back
//! on another queue is sent to the conversation that asked for it.
//!
//! Nothing here talks to a chat service, a broker or a disk. The library
//! decides; the program around it carries the decisions out.

pub mod codec;
pub mod dialogue;
pub mod formats;
pub mod keyboard;
pub mod message;
pub mod router;
pub mod state;
pub mod store;
pub mod wire;
