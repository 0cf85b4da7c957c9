//! First-order low-pass filter on a wrapped 16-bit angle.
use vstd::prelude::*;
use crate::fixed::{trunc_div, div_toward_zero};

verus! {

/// Low-pass filter that moves its output toward each input by the shortest
/// way round the circle, by `1 / (smoothing + 1)` of the gap.
/// A smoothing of 0 passes the input through.
#[derive(Clone, Copy, Debug, PartialEq, Eq, Structural)]
pub struct FilterLPF {
    /// The current output.
    pub value: u16,
    pub smoothing: u16,
}

impl FilterLPF {
    pub open spec fn next(self, input: u16) -> FilterLPF {
        let gap = input.wrapping_sub(self.value) as i16;
        let step = trunc_div(gap as int, self.smoothing + 1);
        FilterLPF { value: self.value.wrapping_add(step as u16), smoothing: self.smoothing }
    }

    /// A filter whose output starts at `initial`.
    pub fn new(initial: u16, smoothing: u16) -> (r: Self)
        ensures
            r.value == initial,
            r.smoothing == smoothing,
    {
        FilterLPF { value: initial, smoothing }
    }

    /// Takes one input and returns the new output.
    pub fn tick(&mut self, input: u16) -> (r: u16)
        ensures
            *final(self) == old(self).next(input),
            r == final(self).value,
    {
        let gap = input.wrapping_sub(self.value) as i16;
        let step: i64 = div_toward_zero(gap as i64, self.smoothing as i64 + 1);
        self.value = self.value.wrapping_add(step as u16);
        self.value
    }
}

/// Passing the input through when the smoothing is 0.
pub proof fn lemma_unsmoothed_passes_through(f: FilterLPF, input: u16)
    requires
        f.smoothing == 0,
    ensures
        f.next(input).value == input,
{
    let gap = input.wrapping_sub(f.value) as i16;
    assert(trunc_div(gap as int, 1) == gap as int);
    let v = f.value;
    assert(v.wrapping_add((input.wrapping_sub(v) as i16) as u16) == input) by (bit_vector);
}

} // verus!
