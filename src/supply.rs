//! Conversion of the raw supply sample into millivolts.
use vstd::prelude::*;
use crate::fixed::{trunc_div, div_toward_zero};

verus! {

/// Millivolts for a raw sample: the full 16-bit scale is `max_mv`, and no
/// reading falls below `min_mv`.
pub open spec fn supply_reading(min_mv: u16, max_mv: i32, raw: u16) -> int {
    let scaled = trunc_div(raw * max_mv, 65535);
    if scaled < min_mv {
        min_mv as int
    } else {
        scaled
    }
}

/// A reading is never below `min_mv` and fits in an `i32`.
pub proof fn lemma_reading_in_range(min_mv: u16, max_mv: i32, raw: u16)
    ensures
        min_mv <= supply_reading(min_mv, max_mv, raw) <= i32::MAX,
{
    let r = raw as int;
    let m = max_mv as int;
    if m >= 0 {
        assert(0 <= r * m <= 65535 * m) by (nonlinear_arith)
            requires 0 <= r <= 65535, m >= 0;
        assert((r * m) / 65535 <= m) by (nonlinear_arith)
            requires 0 <= r * m <= 65535 * m;
    } else {
        assert(r * m <= 0) by (nonlinear_arith)
            requires 0 <= r, m < 0;
    }
}

/// Supply voltage conditioning.
#[derive(Clone, Copy, Debug, PartialEq, Eq, Structural)]
pub struct SupplyVoltage {
    pub min_mv: u16,
    pub max_mv: i32,
    /// The last reading, in millivolts.
    pub voltage_mv: i32,
}

impl SupplyVoltage {
    pub open spec fn next(self, raw: u16) -> SupplyVoltage {
        SupplyVoltage { voltage_mv: supply_reading(self.min_mv, self.max_mv, raw) as i32, ..self }
    }

    /// A conditioner whose first reading is `min_mv`.
    pub fn new(min_mv: u16, max_mv: i32) -> (r: Self)
        ensures
            r.min_mv == min_mv,
            r.max_mv == max_mv,
            r.voltage_mv == min_mv,
    {
        SupplyVoltage { min_mv, max_mv, voltage_mv: min_mv as i32 }
    }

    /// Takes one raw sample.
    pub fn tick(&mut self, raw: u16)
        ensures
            *final(self) == old(self).next(raw),
            final(self).voltage_mv == supply_reading(old(self).min_mv, old(self).max_mv, raw),
            final(self).voltage_mv >= 0,
    {
        proof {
            let r = raw as int;
            let m = self.max_mv as int;
            assert(-65535 * 0x8000_0000 <= r * m <= 65535 * 0x8000_0000) by (nonlinear_arith)
                requires 0 <= r <= 65535, -0x8000_0000 <= m < 0x8000_0000;
            lemma_reading_in_range(self.min_mv, self.max_mv, raw);
        }
        let n: i64 = (raw as i64) * (self.max_mv as i64);
        let scaled: i64 = div_toward_zero(n, 65535);
        if scaled < self.min_mv as i64 {
            self.voltage_mv = self.min_mv as i32;
        } else {
            self.voltage_mv = scaled as i32;
        }
    }

    /// The last reading, in millivolts.
    pub fn voltage_mv(&self) -> (r: i32)
        ensures
            r == self.voltage_mv,
    {
        self.voltage_mv
    }
}

} // verus!
