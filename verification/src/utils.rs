//! Small helpers: buffer-capacity rounding and a deferred-value holder.

use vstd::prelude::*;

verus! {

/// The smallest multiple of `multiple` that is `>= value` (mathematical form).
pub open spec fn round_up_to_multiple(value: int, multiple: int) -> int {
    if value % multiple == 0 {
        value
    } else {
        value + (multiple - value % multiple)
    }
}

/// Rounds `value` up to the next multiple of `multiple`; used to pad the
/// particle-buffer capacity to the compute workgroup size.
pub fn multiple_of(value: u32, multiple: u32) -> (r: u32)
    requires
        multiple > 0,
        round_up_to_multiple(value as int, multiple as int) <= u32::MAX,
    ensures
        r == round_up_to_multiple(value as int, multiple as int),
        r % multiple == 0,
        value <= r < value + multiple,
{
    let remainder = value % multiple;
    if remainder != 0 {
        proof {
            let v = value as int;
            let m = multiple as int;
            vstd::arithmetic::div_mod::lemma_fundamental_div_mod(v, m);
            assert(v + (m - v % m) == (v / m + 1) * m) by {
                vstd::arithmetic::mul::lemma_mul_is_distributive_add(m, v / m, 1);
            }
            vstd::arithmetic::div_mod::lemma_mod_multiples_basic(v / m + 1, m);
        }
        value + (multiple - remainder)
    } else {
        value
    }
}

/// A slot for a value that only comes to exist once a later initialization
/// phase has run; callers must check presence before dereferencing.
pub enum Exists<T> {
    Ready(T),
    Absent,
}

impl<T> Exists<T> {
    /// True exactly when no value has been stored yet.
    pub fn is_none(&self) -> (r: bool)
        ensures
            r == (self is Absent),
    {
        matches!(self, Exists::Absent)
    }

    /// Borrows the stored value; the contract obliges callers to have
    /// checked presence first, so the absent case is unreachable.
    pub fn deref(&self) -> (r: &T)
        requires
            self is Ready,
        ensures
            *r == self->Ready_0,
    {
        match self {
            Exists::Ready(v) => v,
            Exists::Absent => vstd::pervasive::unreached(),
        }
    }

    /// Mutably borrows the stored value under the same presence obligation.
    pub fn deref_mut(&mut self) -> (r: &mut T)
        requires
            (*old(self)) is Ready,
        ensures
            *r == (*old(self))->Ready_0,
            *final(self) == Exists::Ready(*final(r)),
    {
        match self {
            Exists::Ready(v) => v,
            Exists::Absent => vstd::pervasive::unreached(),
        }
    }
}

} // verus!
