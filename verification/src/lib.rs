//! A client node for a simulated packet-switched overlay network.
//!
//! The node is a composition of three worker threads: a listener that
//! reassembles inbound packets into application messages, a transmitter that
//! fragments and forwards outbound messages, and the client logic that
//! interprets decoded messages.  This crate holds the verified core of that
//! node: the application message model, the client-logic state machine (the
//! scripted phase, inbound dispatch, and the follow-up requests derived from
//! media citations in text bodies), the compute half of the media sink, and
//! the supervisor's shutdown plan.  The blocking select loops, the threads,
//! and the channel plumbing around this core are ordinary unverified code
//! that drives these functions.

pub mod citations;
pub mod decimal;
pub mod logic;
pub mod media;
pub mod messages;
pub mod supervisor;
