use vstd::arithmetic::div_mod::lemma_fundamental_div_mod;
use vstd::arithmetic::div_mod::lemma_fundamental_div_mod_converse;
use vstd::prelude::*;

verus! {

/// Number of raw units in one whole unit: the scalar has 16 fractional bits.
pub const SCALE: i64 = 65536;

/// Whether an integer can be held by a raw value.
pub open spec fn fits(v: int) -> bool {
    i64::MIN <= v <= i64::MAX
}

/// Raw value of the product of two raw values: the exact product, rounded down.
pub open spec fn mul_spec(a: int, b: int) -> int {
    (a * b) / (SCALE as int)
}

/// A signed fixed-point number with 16 fractional bits.
///
/// The number stands for `raw / 65536`; its view is the raw integer.
#[derive(Clone, Copy, Debug, PartialEq, Eq, Structural)]
pub struct Fixed {
    pub raw: i64,
}

impl View for Fixed {
    type V = int;

    open spec fn view(&self) -> int {
        self.raw as int
    }
}

/// For negative `p`, the floor of `p / SCALE` is minus `-p / SCALE` rounded up.
proof fn lemma_floor_of_negative(p: int, n: int, q: int)
    requires
        p < 0,
        n == -p,
        q == (n + SCALE - 1) / (SCALE as int),
    ensures
        p / (SCALE as int) == -q,
{
    let s = SCALE as int;
    lemma_fundamental_div_mod(n + s - 1, s);
    let r = (n + s - 1) % s;
    assert(n + s - 1 == s * q + r);
    assert(p == (-q) * s + (s - 1 - r)) by (nonlinear_arith)
        requires
            n + s - 1 == s * q + r,
            p == -n,
    ;
    lemma_fundamental_div_mod_converse(p, s, -q, s - 1 - r);
}

impl Fixed {
    /// Builds a number from its raw value.
    pub fn from_raw(raw: i64) -> (r: Fixed)
        ensures
            r@ == raw,
    {
        Fixed { raw }
    }

    /// The raw value.
    pub fn raw(&self) -> (r: i64)
        ensures
            r == self@,
    {
        self.raw
    }

    /// Zero.
    pub fn zero() -> (r: Fixed)
        ensures
            r@ == 0,
    {
        Fixed { raw: 0 }
    }

    /// One.
    pub fn one() -> (r: Fixed)
        ensures
            r@ == SCALE,
    {
        Fixed { raw: SCALE }
    }

    /// One half.
    pub fn half() -> (r: Fixed)
        ensures
            r@ == SCALE / 2,
    {
        Fixed { raw: SCALE / 2 }
    }

    /// Two.
    pub fn two() -> (r: Fixed)
        ensures
            r@ == 2 * SCALE,
    {
        Fixed { raw: 2 * SCALE }
    }

    /// The whole number `v`, exactly.
    pub fn from_u32(v: u32) -> (r: Fixed)
        ensures
            r@ == v * SCALE,
    {
        Fixed { raw: (v as i64) * SCALE }
    }

    /// The whole number `v`, exactly.
    pub fn from_i32(v: i32) -> (r: Fixed)
        ensures
            r@ == v * SCALE,
    {
        Fixed { raw: (v as i64) * SCALE }
    }

    /// Sum.
    pub fn plus(self, o: Fixed) -> (r: Fixed)
        requires
            fits(self@ + o@),
        ensures
            r@ == self@ + o@,
    {
        Fixed { raw: self.raw + o.raw }
    }

    /// Difference.
    pub fn minus(self, o: Fixed) -> (r: Fixed)
        requires
            fits(self@ - o@),
        ensures
            r@ == self@ - o@,
    {
        Fixed { raw: self.raw - o.raw }
    }

    /// Product, rounded down to the nearest raw unit.
    pub fn times(self, o: Fixed) -> (r: Fixed)
        requires
            fits(mul_spec(self@, o@)),
        ensures
            r@ == mul_spec(self@, o@),
    {
        let a: i128 = self.raw as i128;
        let b: i128 = o.raw as i128;
        assert(-0x8000_0000_0000_0000 * 0x8000_0000_0000_0000 <= a * b
            <= 0x8000_0000_0000_0000 * 0x8000_0000_0000_0000) by (nonlinear_arith)
            requires
                -0x8000_0000_0000_0000 <= a <= 0x7fff_ffff_ffff_ffff,
                -0x8000_0000_0000_0000 <= b <= 0x7fff_ffff_ffff_ffff,
        ;
        let p: i128 = a * b;
        let s: i128 = SCALE as i128;
        let q: i128;
        if p >= 0 {
            q = p / s;
        } else {
            let n: i128 = -p;
            let d: i128 = (n + s - 1) / s;
            proof {
                lemma_floor_of_negative(p as int, n as int, d as int);
            }
            q = -d;
        }
        Fixed { raw: q as i64 }
    }

    /// Whether `self` is less than `o`.
    pub fn lt(self, o: Fixed) -> (r: bool)
        ensures
            r == (self@ < o@),
    {
        self.raw < o.raw
    }
}

} // verus!
