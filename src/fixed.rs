//! Fixed-point helpers shared by the control pipeline.
use vstd::prelude::*;

verus! {

/// Integer division rounding toward zero, as the machine divides signed
/// integers (for a positive divisor).
pub open spec fn trunc_div(n: int, d: int) -> int {
    if n >= 0 {
        n / d
    } else {
        -((-n) / d)
    }
}

/// Divides `n` by the positive `d`, rounding toward zero.
pub fn div_toward_zero(n: i64, d: i64) -> (r: i64)
    requires
        d > 0,
        n > i64::MIN,
    ensures
        r == trunc_div(n as int, d as int),
{
    if n >= 0 {
        n / d
    } else {
        let m: i64 = -n;
        let q: i64 = m / d;
        -q
    }
}

} // verus!
