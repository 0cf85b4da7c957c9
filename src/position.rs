//! Multi-turn tracking of a 16-bit wrapped position sensor.
use vstd::prelude::*;

verus! {

/// Last wrapped sensor angle and the unwrapped position built from it.
#[derive(Clone, Copy, Debug, PartialEq, Eq, Structural)]
pub struct Position {
    /// Last raw sample, one full turn per 65536 counts.
    pub angle: u16,
    /// Accumulated position; wraps only at the limits of `i32`.
    pub position: i32,
}

impl Position {
    /// The tracker after one sample: the step since the last sample is taken
    /// as the shortest signed way round the circle.
    pub open spec fn next(self, raw: u16) -> Position {
        let delta = raw.wrapping_sub(self.angle) as i16;
        Position { angle: raw, position: self.position.wrapping_add(delta as i32) }
    }

    /// A tracker at angle 0 and position 0.
    pub fn new() -> (r: Self)
        ensures
            r.angle == 0,
            r.position == 0,
    {
        Position { angle: 0, position: 0 }
    }

    /// Takes one raw sample.
    pub fn tick(&mut self, raw: u16)
        ensures
            *final(self) == old(self).next(raw),
    {
        let delta = raw.wrapping_sub(self.angle) as i16;
        self.position = self.position.wrapping_add(delta as i32);
        self.angle = raw;
    }

    /// The last wrapped angle.
    pub fn angle(&self) -> (r: u16)
        ensures
            r == self.angle,
    {
        self.angle
    }

    /// The unwrapped position.
    pub fn position(&self) -> (r: i32)
        ensures
            r == self.position,
    {
        self.position
    }
}

} // verus!
