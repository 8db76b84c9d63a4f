use vstd::prelude::*;

verus! {

/// An angle stored exactly, as a fraction `num / den` of one full turn
/// (one turn is `2 * pi` radians).  Keeping angles as fractions lets every
/// formula of the wheel geometry be stated and checked exactly; the
/// application converts a `Turns` value to radians only at the drawing
/// boundary.
///
/// The fraction is not reduced: two `Turns` values are equal only when both
/// fields agree, which is what the geometry contracts promise.
#[derive(Clone, Copy, PartialEq, Eq, Structural, Debug)]
pub struct Turns {
    pub num: i128,
    pub den: i128,
}

impl Turns {
    /// A well-formed angle has a positive denominator, and both fields stay
    /// small enough that the sector formulas never overflow an `i128`.
    pub open spec fn wf(self) -> bool {
        &&& 1 <= self.den <= 0x1_0000_0000_0000_0000
        &&& -0x1_0000_0000_0000_0000 <= self.num <= 0x1_0000_0000_0000_0000
    }

    pub fn new(num: i128, den: i128) -> (r: Turns)
        requires
            1 <= den <= 0x1_0000_0000_0000_0000,
            -0x1_0000_0000_0000_0000 <= num <= 0x1_0000_0000_0000_0000,
        ensures
            r.num == num,
            r.den == den,
            r.wf(),
    {
        Turns { num, den }
    }

    /// The zero angle.
    pub fn zero() -> (r: Turns)
        ensures
            r.num == 0,
            r.den == 1,
            r.wf(),
    {
        Turns { num: 0, den: 1 }
    }
}

} // verus!
