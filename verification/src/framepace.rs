//! Frame-pacing bookkeeping: a two-slot rotating record of frame-start
//! instants and the index of the slot belonging to the frame in progress.
//! Elapsed-time measurement and the sleep-then-spin wait on the target
//! frametime are floating-point and thread work and stay with the caller,
//! which reads the current slot through [`Framepacer::current_start`].

use vstd::prelude::*;
use std::time::Instant;

verus! {

/// `std::time::Instant`, opaque to the verifier: a moment in time with no
/// further structure assumed.
#[verifier::external_type_specification]
#[verifier::external_body]
pub struct ExInstant(Instant);

/// Relies on `std::time::Instant::now`: an opaque reading of a monotonic
/// clock; nothing is assumed about its value.
#[verifier::external_body]
fn instant_now() -> (r: Instant) {
    Instant::now()
}

/// A two-slot rotating record of frame-start instants.
pub struct Framepacer {
    /// The instant recorded for the even-indexed slot.
    pub slot_a: Instant,
    /// The instant recorded for the odd-indexed slot.
    pub slot_b: Instant,
    /// Which slot belongs to the frame currently in progress.
    pub current: usize,
}

impl Framepacer {
    /// The index always names one of the two slots.
    pub open spec fn wf(&self) -> bool {
        self.current < 2
    }

    /// Starts with both slots set to the construction instant.
    pub fn new() -> (r: Self)
        ensures
            r.wf(),
            r.current == 0,
    {
        Framepacer {
            slot_a: instant_now(),
            slot_b: instant_now(),
            current: 0,
        }
    }

    /// The index of the slot the next frame will use.
    pub fn next(&self) -> (r: usize)
        requires
            self.wf(),
        ensures
            r == 1 - self.current,
            r < 2,
    {
        (self.current + 1) % 2
    }

    /// Opens a new frame: records "now" into the next slot and advances
    /// the index, so frametime is measured from the start of the frame in
    /// progress, decoupled from when the previous frame's work finished.
    pub fn begin_frame(&mut self)
        requires
            old(self).wf(),
        ensures
            final(self).wf(),
            final(self).current == 1 - old(self).current,
            final(self).current != old(self).current,
    {
        let slot = self.next();
        if slot == 0 {
            self.slot_a = instant_now();
        } else {
            self.slot_b = instant_now();
        }
        self.current = slot;
    }

    /// The instant the frame in progress started at; the caller derives
    /// frametime and framerate from it.
    pub fn current_start(&self) -> (r: &Instant)
        requires
            self.wf(),
        ensures
            self.current == 0 ==> *r == self.slot_a,
            self.current == 1 ==> *r == self.slot_b,
    {
        if self.current == 0 {
            &self.slot_a
        } else {
            &self.slot_b
        }
    }
}

} // verus!
