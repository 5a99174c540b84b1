//! Core of a single-session Telnet install driver for a fixed in-car device.
//!
//! The crate models the protocol layer of the tool: the session lifecycle
//! (connect, disconnect, replace), command framing, the line classifier that
//! recognises the two install-result fingerprints, the output buffer filled by
//! a background monitor, and the three-step install sequence.  All decisions
//! are made here over plain byte strings and are verified; the surrounding
//! program performs the actual network reads and writes and feeds their
//! results back in.

pub mod classify;
pub mod errors;
pub mod install;
pub mod network;
pub mod output;
pub mod session;
pub mod text;
