//! The multiplexed-channel layer of an SSH client: logical, independently
//! flow-controlled channels inside one transport connection.
//!
//! A consumer holds a [`channel::Channel`]; every mutating operation builds a
//! [`msg::Request`] carrying a single-use completion slot, hands it to the
//! session task, and waits for the answer. Data pushed by the session arrives
//! as [`channel::Message`]s on the channel's private stream, drained directly
//! or through the buffering [`channel::BufferChannel`]. Port forwarding wraps
//! a channel as a [`forward::Stream`], accepted from a [`forward::Listener`].

pub mod bytebuf;
pub mod channel;
pub mod error;
pub mod forward;
pub mod msg;
pub mod pipe;
