//! State shared by the input, update and render loops without locks.
//!
//! Each value lives in a std atomic with relaxed ordering: every bit and flag
//! is independent, and each loop re-reads the whole state on every pass. What
//! another thread stores may land between any two calls, so these handles
//! promise nothing about the value a read returns; the decisions made from
//! the values read are stated in `input`, `movement` and `engine`.

use crate::input::{classify, effect_of, BTKey, InputEffect, InputEvent, PKeys};
use std::sync::atomic::{AtomicBool, AtomicU32, Ordering};
use vstd::prelude::*;

verus! {

/// The held movement keys, shared between the input pump and the updater.
pub struct SharedKeys {
    bits: AtomicU32,
}

impl SharedKeys {
    /// No key held.
    pub fn new() -> (r: SharedKeys) {
        SharedKeys { bits: AtomicU32::new(0) }
    }

    /// Sets `key`'s bit; a single atomic OR, so concurrent presses and
    /// releases of other keys are never lost.
    pub fn press(&self, key: BTKey) {
        self.bits.fetch_or(key.bit(), Ordering::Relaxed);
    }

    /// Clears `key`'s bit with a single atomic AND.
    pub fn release(&self, key: BTKey) {
        self.bits.fetch_and(!key.bit(), Ordering::Relaxed);
    }

    /// A copy of the keys held at the moment of the read.
    pub fn snapshot(&self) -> (r: PKeys) {
        PKeys::from_bits(self.bits.load(Ordering::Relaxed))
    }
}

/// The two lifecycle flags: `exit` only ever goes from false to true;
/// `surface_dirty` is set by any thread and cleared only by the render loop.
pub struct LifecycleFlags {
    exit: AtomicBool,
    surface_dirty: AtomicBool,
}

impl LifecycleFlags {
    /// Neither flag set.
    pub fn new() -> (r: LifecycleFlags) {
        LifecycleFlags { exit: AtomicBool::new(false), surface_dirty: AtomicBool::new(false) }
    }

    /// Asks every loop to stop.
    pub fn request_exit(&self) {
        self.exit.store(true, Ordering::Relaxed);
    }

    pub fn exit_requested(&self) -> bool {
        self.exit.load(Ordering::Relaxed)
    }

    /// Asks the render loop to rebuild the swapchain.
    pub fn mark_surface_dirty(&self) {
        self.surface_dirty.store(true, Ordering::Relaxed);
    }

    /// Reads and clears the dirty flag in one atomic swap, so a set that
    /// arrives after the read stays in the flag for the next frame.
    pub fn take_surface_dirty(&self) -> bool {
        self.surface_dirty.swap(false, Ordering::Relaxed)
    }
}

/// Applies one window event to the shared state and says whether the input
/// pump goes on: it stops once exit has been requested, by this event or
/// earlier by any thread.
pub fn input_step(keys: &SharedKeys, flags: &LifecycleFlags, ev: &InputEvent) -> (keep_running:
    bool)
    ensures
        effect_of(*ev) == InputEffect::RequestExit ==> !keep_running,
{
    match classify(ev) {
        InputEffect::Press(key) => keys.press(key),
        InputEffect::Release(key) => keys.release(key),
        InputEffect::RequestExit => {
            flags.request_exit();
            return false;
        },
        InputEffect::MarkSurfaceDirty => flags.mark_surface_dirty(),
        InputEffect::Ignore => {},
    }
    !flags.exit_requested()
}

} // verus!
