//! Connection-upgrade core for a peer-to-peer networking stack.
//!
//! After a raw connection to a remote peer exists, the pieces in this crate
//! negotiate which protocol runs over it and expose the result as multiplexed
//! substreams:
//!
//! * [`protocol`] — validated protocol identifiers, the tokens of negotiation;
//! * [`negotiation`] — the protocol-selection rule and its error taxonomy;
//! * [`upgrade`] — the upgrade trait surface and the driver's decisions:
//!   filtering, deduplication, and the mapping of outcomes to errors;
//! * [`combinators`] — the wrappers that build upgrade sets: select, map,
//!   optional, pending, ready, denied, from-fn;
//! * [`connection`] — the stream-muxer adapter that turns a peer connection
//!   offering data channels into a poll-driven source of substreams;
//! * [`builder`] — the phase-typed flow that assembles a transport stack.
//!
//! Everything here is poll-driven and synchronous: the asynchronous work
//! (sockets, handshakes, data-channel opening) happens outside, and its
//! outcomes are fed into these state machines as plain values.

pub mod builder;
pub mod combinators;
pub mod connection;
pub mod negotiation;
pub mod protocol;
pub mod upgrade;
