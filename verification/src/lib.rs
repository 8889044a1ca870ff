//! Wire codec and session state machine for the X Input Method (XIM)
//! protocol: a binary request/reply protocol spoken between an X11 client
//! and an input-method server.
//!
//! The crate turns typed protocol messages into byte sequences that obey
//! XIM's framing, alignment and variable-length-field rules, parses
//! untrusted byte sequences back into typed messages under strict
//! validation, and tracks the per-connection protocol phase so that
//! messages illegal in the current phase are rejected before they reach
//! the wire.
//!
//! Decoded messages own their payload data: variable-length fields are
//! copied out of the input buffer, so a decoded message may outlive the
//! buffer it was parsed from. This trades one allocation per string for
//! freedom from lifetime coupling between buffers and messages.

pub mod enums;
pub mod error;
pub mod types;
pub mod prim;
pub mod codec;
pub mod session;
