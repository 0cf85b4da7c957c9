//! Start-up sweep that finds the offset between the sensed angle and the
//! electrical angle.
use vstd::prelude::*;

verus! {

/// Sweeps the electrical angle at a fixed step for `duration` ticks, then
/// takes the offset between the sweep angle and the sensed position.
/// The mapping assumes one electrical turn per sensed turn.
#[derive(Clone, Copy, Debug, PartialEq, Eq, Structural)]
pub struct AngleCalibrator {
    /// Ticks that the sweep lasts.
    pub duration: u32,
    /// Ticks swept so far.
    pub ticks: u32,
    /// Electrical angle added on each sweep tick.
    pub step: u16,
    /// The current sweep angle.
    pub angle: u16,
    /// Electrical angle minus sensed angle, once found.
    pub offset: u16,
    pub ready: bool,
}

impl AngleCalibrator {
    /// The calibrator after one sweep tick at sensed position `position`.
    pub open spec fn next(self, position: i32) -> AngleCalibrator {
        if self.ready {
            self
        } else {
            let ticks = if self.ticks < self.duration { self.ticks + 1 } else { self.ticks as int };
            let angle = self.angle.wrapping_add(self.step);
            let done = ticks >= self.duration;
            AngleCalibrator {
                ticks: ticks as u32,
                angle,
                offset: if done { angle.wrapping_sub(position as u16) } else { self.offset },
                ready: done,
                ..self
            }
        }
    }

    /// What `get_correction` returns: the offset, and the electrical angle
    /// for a sensed angle.
    pub open spec fn correction(self, sensed: u16) -> (i32, u16) {
        (self.offset as i32, sensed.wrapping_add(self.offset))
    }

    /// A calibrator that sweeps one electrical turn in one second of ticks
    /// (in one tick when `frequency` is 0).
    pub fn new(frequency: u16) -> (r: Self)
        ensures
            r.duration == (if frequency == 0 { 1 } else { frequency as u32 }),
            r.step == 65535int / r.duration as int,
            r.ticks == 0,
            r.angle == 0,
            r.offset == 0,
            !r.ready,
    {
        let duration: u32 = if frequency == 0 { 1 } else { frequency as u32 };
        AngleCalibrator {
            duration,
            ticks: 0,
            step: (65535 / duration) as u16,
            angle: 0,
            offset: 0,
            ready: false,
        }
    }

    /// One sweep tick; returns the electrical angle to drive.
    pub fn tick(&mut self, position: i32) -> (r: u16)
        ensures
            *final(self) == old(self).next(position),
            r == final(self).angle,
    {
        if !self.ready {
            if self.ticks < self.duration {
                self.ticks = self.ticks + 1;
            }
            self.angle = self.angle.wrapping_add(self.step);
            if self.ticks >= self.duration {
                self.offset = self.angle.wrapping_sub(position as u16);
                self.ready = true;
            }
        }
        self.angle
    }

    pub fn is_ready(&self) -> (r: bool)
        ensures
            r == self.ready,
    {
        self.ready
    }

    /// The offset, and the electrical angle for the sensed angle `sensed`.
    pub fn get_correction(&self, sensed: u16) -> (r: (i32, u16))
        ensures
            r == self.correction(sensed),
    {
        (self.offset as i32, sensed.wrapping_add(self.offset))
    }
}

} // verus!
