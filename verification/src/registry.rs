//! Shared handle registry: a once-settable holder for the live application
//! context.
//!
//! The registry is seeded exactly once, at startup; later initialization
//! attempts are no-ops. Absence of a context is a valid transient state (a
//! recognition callback may fire before startup completes, and the event is
//! then dropped). The surrounding application keeps one `Registry` value
//! behind its own short-held lock; nothing here blocks.

use vstd::prelude::*;

verus! {

/// What the registry holds after an initialization attempt: the first stored
/// context wins, a later one is discarded.
pub open spec fn init_state<C>(current: Option<C>, context: C) -> Option<C> {
    match current {
        Some(_) => current,
        None => Some(context),
    }
}

/// Holder for an optional application context, settable at most once.
pub struct Registry<C> {
    current: Option<C>,
}

impl<C> Registry<C> {
    /// The stored context, if initialization has happened.
    pub closed spec fn context(&self) -> Option<C> {
        self.current
    }

    /// A registry that holds no context yet.
    pub fn new() -> (r: Registry<C>)
        ensures
            r.context() is None,
    {
        Registry { current: None }
    }

    /// Stores `context` only if no context is stored yet. Returns whether this
    /// call was the one that seeded the registry: the caller registers the
    /// native callback exactly once, on a `true` result, so registration
    /// happens only after a context is in place.
    pub fn initialize(&mut self, context: C) -> (seeded: bool)
        ensures
            final(self).context() == init_state(old(self).context(), context),
            seeded == (old(self).context() is None),
    {
        if self.current.is_some() {
            false
        } else {
            self.current = Some(context);
            true
        }
    }

    /// The stored context, or `None` if initialization has not happened yet.
    pub fn current(&self) -> (r: &Option<C>)
        ensures
            *r == self.context(),
    {
        &self.current
    }
}

/// Law: once a context is stored, a later initialization with any other
/// context leaves the registry unchanged; in particular, after two
/// initializations the registry still holds the first context.
pub proof fn lemma_first_initialization_wins<C>(current: Option<C>, first: C, second: C)
    ensures
        init_state(init_state(current, first), second) == init_state(current, first),
{
}

} // verus!
