//! Host-side bookkeeping of the physics compute step: the ping-pong
//! particle-buffer pair, its capacity, and the "current" slot that every
//! downstream consumer (render, follow, capture) reads for the rest of a
//! frame. The GPU resources themselves live with the caller; they are
//! allocated and rebound exactly as this state dictates.

use vstd::prelude::*;
use crate::utils::round_up_to_multiple;
use crate::utils::multiple_of;

verus! {

/// Compute workgroup size; buffer capacity is always padded to a multiple of it.
pub const PARTICLES_PER_WORKGROUP: u32 = 256;

/// Bytes of one packed particle record (two 2D vectors plus two scalars).
pub const PARTICLE_STRIDE: u32 = 24;

/// State of the double-buffered physics module.
pub struct PhysicsModule {
    /// Number of particle records each of the two buffer slots can hold.
    pub particle_capacity: u32,
    /// Index of the authoritative ("current") buffer slot.
    pub current: usize,
}

/// The slot index after `n` physics dispatches starting from slot `start`.
pub open spec fn slot_after(start: int, n: nat) -> int
    decreases n,
{
    if n == 0 {
        start
    } else {
        1 - slot_after(start, (n - 1) as nat)
    }
}

impl PhysicsModule {
    /// Both slots exist; `current` names one of them.
    pub open spec fn wf(&self) -> bool {
        self.current < 2
    }

    /// Sets up the module for `particle_count` particles: capacity is the
    /// count rounded up to the workgroup size, and slot 0 starts current.
    pub fn new(particle_count: u32) -> (r: Self)
        requires
            round_up_to_multiple(particle_count as int, PARTICLES_PER_WORKGROUP as int)
                <= u32::MAX,
        ensures
            r.wf(),
            r.current == 0,
            r.particle_capacity
                == round_up_to_multiple(particle_count as int, PARTICLES_PER_WORKGROUP as int),
    {
        PhysicsModule {
            particle_capacity: multiple_of(particle_count, PARTICLES_PER_WORKGROUP),
            current: 0,
        }
    }

    /// Reallocates both slots for a new particle count. Contents are not
    /// preserved: the caller must re-seed through the generator afterwards.
    pub fn resize_buffers(&mut self, particle_count: u32)
        requires
            round_up_to_multiple(particle_count as int, PARTICLES_PER_WORKGROUP as int)
                <= u32::MAX,
        ensures
            final(self).particle_capacity
                == round_up_to_multiple(particle_count as int, PARTICLES_PER_WORKGROUP as int),
            final(self).current == old(self).current,
    {
        self.particle_capacity = multiple_of(particle_count, PARTICLES_PER_WORKGROUP);
    }

    /// The slot downstream consumers must read for the rest of the frame.
    pub fn current_buffer(&self) -> (r: usize)
        ensures
            r == self.current,
    {
        self.current
    }

    /// Records one physics dispatch: the freshly written slot becomes
    /// current, and the returned index names the bind group to dispatch
    /// with (the one that reads the previously current slot).
    pub fn begin_pass(&mut self) -> (bind_group: usize)
        requires
            old(self).wf(),
        ensures
            final(self).wf(),
            final(self).current == 1 - old(self).current,
            final(self).current != old(self).current,
            bind_group == old(self).current,
            final(self).particle_capacity == old(self).particle_capacity,
    {
        let previous = self.current;
        self.current = 1 - self.current;
        previous
    }

    /// Bytes each buffer slot occupies: one stride per capacity record.
    pub fn buffer_size_bytes(&self) -> (r: u64)
        ensures
            r == self.particle_capacity * PARTICLE_STRIDE,
    {
        self.particle_capacity as u64 * PARTICLE_STRIDE as u64
    }
}

/// Ping-pong invariant: over any number of dispatches the current slot
/// stays one of the two, differs from the slot current just before each
/// dispatch, and alternates deterministically with the dispatch count.
pub proof fn lemma_ping_pong_alternation(start: int, n: nat)
    requires
        0 <= start < 2,
    ensures
        0 <= slot_after(start, n) < 2,
        slot_after(start, n + 1) == 1 - slot_after(start, n),
        slot_after(start, n + 1) != slot_after(start, n),
        slot_after(start, n) == if n % 2 == 0 { start } else { 1 - start },
    decreases n,
{
    if n > 0 {
        lemma_ping_pong_alternation(start, (n - 1) as nat);
    }
}

} // verus!
