//! Callback bridge: the decision behind the single callback registered with
//! the native engine.
//!
//! The engine invokes the callback on threads the bridge does not control,
//! with a null-terminated text buffer that is only valid for the duration of
//! the invocation. The application layer turns that raw pointer into plain
//! bytes (`None` for a null pointer, otherwise the bytes up to the
//! terminator) and asks this module what to do; it publishes the returned
//! value, if any, on the bus channel `phonics://speech`. The decision never
//! panics and retains nothing: a malformed payload, or a callback that fires
//! before the registry holds a context, is dropped silently.

use vstd::prelude::*;

use crate::json::{json_from_bytes, json_of_bytes};
use crate::registry::Registry;

verus! {

/// The value to publish on the speech channel for one callback invocation
/// with the given payload, or `None` where the invocation is dropped: a null
/// pointer, bytes that are not valid JSON text, or an uninitialized registry
/// each produce no publish; valid structured data with a live context is
/// published exactly once, unchanged.
pub fn handle_native_event<C>(payload: Option<&[u8]>, registry: &Registry<C>) -> (r: Option<
    serde_json::Value,
>)
    ensures
        r == (match payload {
            Some(bytes) => if registry.context() is Some {
                json_of_bytes(bytes@)
            } else {
                None::<serde_json::Value>
            },
            None => None::<serde_json::Value>,
        }),
{
    let bytes = match payload {
        Some(buffer) => buffer,
        None => {
            return None;
        },
    };
    let value = match json_from_bytes(bytes) {
        Ok(decoded) => decoded,
        Err(_) => {
            return None;
        },
    };
    match registry.current() {
        Some(_) => Some(value),
        None => None,
    }
}

} // verus!
