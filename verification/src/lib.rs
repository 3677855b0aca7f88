//! Keeps a local directory synchronized with a remote content bundle that is
//! distributed over a peer-to-peer transfer protocol.
//!
//! The heart of the crate is the transfer session manager in [`session`]: it
//! decides how a running transfer is replaced by a new one (retire the old
//! transfer, then register the new one), which status and event notifications
//! observers see along the way, and what the caller gets back.  The engine
//! that moves the bytes is an external collaborator; the session manager only
//! plans requests to it and reacts to its replies, so every decision it makes
//! is verified here.

pub mod config;
pub mod limits;
pub mod messages;
pub mod panel;
pub mod session;
pub mod sink;
