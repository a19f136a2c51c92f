//! Bridge between an opaque native speech-recognition engine and an
//! application-level publish/subscribe event bus.
//!
//! The bridge hands the engine a single long-lived callback, runs a strict
//! two-command session protocol (start listening / stop listening) that
//! serializes a list of expected phrases across the boundary, and forwards
//! events the engine reports to the bus under the channel `phonics://speech`,
//! turning failures into tagged error events instead of crashes.
//!
//! This library holds the verified decision and encoding logic. The raw
//! native entry points (C-style function pointers) and the bus dispatch live
//! in the unverified application layer around it, which hands plain values in
//! and carries the returned decisions out.

pub mod callback;
pub mod command;
pub mod json;
pub mod registry;

pub use callback::handle_native_event;
pub use command::{nul_terminate, on_start_signal, parse_start_payload, start, BridgeError,
    StartDecision};
pub use registry::Registry;
