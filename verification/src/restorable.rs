//! A value paired with a baseline it can be restored to.
//!
//! Handlers temporarily override configuration (spawn probabilities, the
//! river mode) and later put the original value back; the pair makes the
//! override/restore discipline explicit instead of scattering saved copies.

use vstd::prelude::*;

verus! {

/// A current value together with a solid (baseline) value that `restore`
/// copies back over it.
pub struct Restorable<T: Copy> {
    /// The value currently in effect; handlers may overwrite it freely.
    pub value: T,
    /// The baseline that `restore` returns to.
    pub solid: T,
}

impl<T: Copy> Restorable<T> {
    /// Builds the pair from a baseline and an initial current value.
    pub fn new(solid_value: T, floating_value: T) -> (r: Self)
        ensures
            r.solid == solid_value,
            r.value == floating_value,
    {
        Restorable { value: floating_value, solid: solid_value }
    }

    /// Builds the pair with the current value equal to the baseline.
    pub fn from_value(value: T) -> (r: Self)
        ensures
            r.solid == value,
            r.value == value,
    {
        Restorable { value, solid: value }
    }

    /// Puts the baseline back in effect.
    pub fn restore(&mut self)
        ensures
            final(self).value == old(self).solid,
            final(self).solid == old(self).solid,
    {
        self.value = self.solid;
    }

    /// The value currently in effect.
    pub fn value(&self) -> (r: T)
        ensures
            r == self.value,
    {
        self.value
    }

    /// The baseline value.
    pub fn solid_value(&self) -> (r: T)
        ensures
            r == self.solid,
    {
        self.solid
    }
}

} // verus!
