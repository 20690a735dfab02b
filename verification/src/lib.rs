//! Reliable large-datagram transfers over an unreliable datagram layer.
//!
//! A message is cut into slices, every slice is protected by a RaptorQ
//! fountain code, and the two ends steer the exchange with `Confirm` and
//! `Complete` envelopes. The crate holds the protocol logic as verified,
//! synchronous code: what is sent, what is answered and how the shared
//! state moves. Sockets, clocks and task scheduling belong to the caller.

pub mod answer;
pub mod codec;
pub mod config;
pub mod delivery;
pub mod envelope;
pub mod error;
pub mod node;
pub mod peer;
pub mod query;
pub mod recv;
pub mod recv_loop;
pub mod send;
pub mod send_loop;
