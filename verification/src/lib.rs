//! Decision core of a human-in-the-loop question service.
//!
//! An automated caller can pause, put a question to a human on a chat
//! backend, and resume with the reply. This crate holds the part of that
//! service that decides things: how a question is turned into a thread
//! title and a message, when a conversation thread is created and when it
//! is reused, how an inbound chat event is classified and routed to the
//! caller waiting for it, and what an `ask` call returns when the human
//! answers, stays silent past the timeout, or the transport fails.
//!
//! The network transports themselves (a gateway connection for one backend,
//! a websocket event stream and REST posts for the other) live outside this
//! crate; they feed plain values in and carry the decided actions out.

pub mod errors;
pub mod gateway;
pub mod once;
pub mod policy;
pub mod router;
pub mod socket;
pub mod text;
pub mod tools;
