//! The Q7 fixed-point number format.
//!
//! A `Q7` packs a fraction in the interval [-1, 1) into a single signed
//! byte: the stored value `n` stands for `n / 128`. The format exists to
//! move compactly stored fractions in and out of wider numeric types;
//! those conversions are lossy, clamping, floating-point work and live
//! with the caller, while the stored byte itself is exact and is what
//! equality compares.

use vstd::prelude::*;

verus! {

/// A fraction in [-1, 1) stored in one byte: the value is `n / 128`,
/// where `n` is the stored signed byte.
#[derive(Debug, Clone, Copy, PartialEq, Eq, Structural)]
pub struct Q7(pub i8);

impl Q7 {
    /// Build a `Q7` from a count of 128ths, clamping anything outside
    /// the representable range to the nearest end: at least 1 becomes
    /// 127/128, at most -1 becomes -128/128. This is the exact core of
    /// every conversion into the format; a caller converting from a
    /// wider numeric type first scales by 128 and then clamps here.
    pub fn from_scaled(n: i32) -> (q: Q7)
        ensures
            n > 127 ==> q.0 == 127,
            n < -128 ==> q.0 == -128i8,
            -128 <= n <= 127 ==> q.0 == n as i8,
    {
        if n > 127 {
            Q7(127)
        } else if n < -128 {
            Q7(-128)
        } else {
            Q7(n as i8)
        }
    }
}

} // verus!
