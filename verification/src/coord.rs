//! Coordinates as IEEE 754 single-precision bit patterns, and the few comparisons the
//! pipeline makes on them, done on the bits.

use vstd::arithmetic::power2::{
    lemma2_to64, lemma_pow2_adds, lemma_pow2_pos, lemma_pow2_strictly_increases,
    lemma_pow2_unfold, pow2,
};
use vstd::prelude::*;

verus! {

/// A single-precision number, held by its bit pattern.
#[derive(Debug, Clone, Copy, PartialEq, Eq, Structural)]
pub struct Coord {
    pub bits: u32,
}

/// A position on the page, in points.
#[derive(Debug, Clone, Copy, PartialEq, Eq, Structural)]
pub struct Point {
    pub x: Coord,
    pub y: Coord,
}

/// Two to the power of `k`.
fn pow2_u64(k: u32) -> (p: u64)
    requires
        k <= 32,
    ensures
        p == pow2(k as nat),
        p <= 0x1_0000_0000,
{
    let mut p: u64 = 1;
    let mut i: u32 = 0;
    proof {
        lemma2_to64();
    }
    while i < k
        invariant
            i <= k <= 32,
            p == pow2(i as nat),
            pow2(32) == 0x1_0000_0000,
        decreases k - i,
    {
        proof {
            lemma_pow2_unfold((i + 1) as nat);
            if i + 1 < 32 {
                lemma_pow2_strictly_increases((i + 1) as nat, 32);
            }
        }
        p = p * 2;
        i = i + 1;
    }
    proof {
        if k < 32 {
            lemma_pow2_strictly_increases(k as nat, 32);
        }
    }
    p
}

/// A positive factor can be cancelled on both sides of a comparison.
proof fn lemma_cancel(a: int, b: int, c: int)
    requires
        c > 0,
    ensures
        a * c >= b * c <==> a >= b,
{
    assert(a >= b ==> a * c >= b * c) by (nonlinear_arith)
        requires
            c > 0,
    ;
    assert(a < b ==> a * c < b * c) by (nonlinear_arith)
        requires
            c > 0,
    ;
}

impl Coord {
    /// The sign bit is set.
    pub open spec fn negative(self) -> bool {
        self.bits >= 0x8000_0000
    }

    /// The biased exponent, 0 to 255.
    pub open spec fn exponent(self) -> nat {
        ((self.bits as nat) / 0x80_0000) % 0x100
    }

    /// The 23 fraction bits.
    pub open spec fn fraction(self) -> nat {
        (self.bits as nat) % 0x80_0000
    }

    /// The pattern stands for no number.
    pub open spec fn nan(self) -> bool {
        self.exponent() == 255 && self.fraction() != 0
    }

    /// The absolute value in units of 2^-149, the spacing of the smallest numbers. Every finite
    /// value is a whole number of these; infinity comes out above every finite value.
    pub open spec fn magnitude(self) -> nat {
        if self.exponent() == 0 {
            self.fraction()
        } else {
            (0x80_0000 + self.fraction()) * pow2((self.exponent() - 1) as nat)
        }
    }

    /// The value in units of 2^-149.
    pub open spec fn scaled(self) -> int {
        if self.negative() {
            -(self.magnitude() as int)
        } else {
            self.magnitude() as int
        }
    }

    /// The number is zero or below; false of a pattern that stands for no number.
    pub open spec fn at_most_zero(self) -> bool {
        !self.nan() && self.scaled() <= 0
    }

    /// The number is `n` or above; false of a pattern that stands for no number.
    pub open spec fn at_least(self, n: int) -> bool {
        !self.nan() && self.scaled() >= n * pow2(149)
    }

    pub fn from_bits(bits: u32) -> (c: Coord)
        ensures
            c.bits == bits,
    {
        Coord { bits }
    }

    pub fn to_bits(self) -> (bits: u32)
        ensures
            bits == self.bits,
    {
        self.bits
    }

    pub fn is_nan(self) -> (r: bool)
        ensures
            r == self.nan(),
    {
        (self.bits / 0x80_0000) % 0x100 == 255 && self.bits % 0x80_0000 != 0
    }

    /// Whether the number is zero or below.
    pub fn is_at_most_zero(self) -> (r: bool)
        ensures
            r == self.at_most_zero(),
    {
        proof {
            lemma_pow2_pos((self.exponent() - 1) as nat);
            if self.exponent() != 0 {
                assert((0x80_0000 + self.fraction()) * pow2((self.exponent() - 1) as nat) > 0)
                    by (nonlinear_arith)
                    requires
                        pow2((self.exponent() - 1) as nat) > 0,
                ;
            }
        }
        if self.is_nan() {
            false
        } else if self.bits >= 0x8000_0000 {
            true
        } else {
            self.bits == 0
        }
    }

    /// Whether the number is `n` or above.
    pub fn is_at_least(self, n: u32) -> (r: bool)
        ensures
            r == self.at_least(n as int),
    {
        if self.is_nan() {
            return false;
        }
        let e: u32 = (self.bits / 0x80_0000) % 0x100;
        let f: u32 = self.bits % 0x80_0000;
        let m: u64 = 0x80_0000 + f as u64;
        proof {
            lemma2_to64();
            lemma_pow2_pos(149);
            lemma_pow2_pos((e - 1) as nat);
            assert(n * pow2(149) >= 0) by (nonlinear_arith)
                requires
                    n >= 0,
                    pow2(149) > 0,
            ;
            if e != 0 {
                assert(m * pow2((e - 1) as nat) > 0) by (nonlinear_arith)
                    requires
                        m > 0,
                        pow2((e - 1) as nat) > 0,
                ;
            }
        }
        proof {
            if n == 0 {
                assert(n * pow2(149) == 0) by (nonlinear_arith)
                    requires
                        n == 0,
                ;
            } else {
                assert(n * pow2(149) > 0) by (nonlinear_arith)
                    requires
                        n >= 1,
                        pow2(149) > 0,
                ;
            }
        }
        if self.bits >= 0x8000_0000 {
            return n == 0 && e == 0 && f == 0;
        }
        if n == 0 {
            return true;
        }
        if e == 0 {
            proof {
                lemma_pow2_strictly_increases(23, 149);
                assert(n * pow2(149) >= pow2(149)) by (nonlinear_arith)
                    requires
                        n >= 1,
                        pow2(149) > 0,
                ;
            }
            return false;
        }
        if e >= 150 {
            let k: u32 = e - 150;
            proof {
                lemma_pow2_adds(k as nat, 149);
                lemma_pow2_pos(k as nat);
                assert(m * pow2((e - 1) as nat) == (m * pow2(k as nat)) * pow2(149))
                    by (nonlinear_arith)
                    requires
                        pow2((e - 1) as nat) == pow2(k as nat) * pow2(149),
                ;
                lemma_cancel(m * pow2(k as nat), n as int, pow2(149) as int);
            }
            if k >= 9 {
                proof {
                    if k > 9 {
                        lemma_pow2_strictly_increases(9, k as nat);
                    }
                    assert(m * pow2(k as nat) >= 0x1_0000_0000) by (nonlinear_arith)
                        requires
                            m >= 0x80_0000,
                            pow2(k as nat) >= 0x200,
                    ;
                }
                true
            } else {
                let p = pow2_u64(k);
                proof {
                    lemma_pow2_strictly_increases(k as nat, 9);
                    assert(m * p < 0x1_0000_0000_0000) by (nonlinear_arith)
                        requires
                            m < 0x100_0000,
                            p < 0x200,
                    ;
                }
                m * p >= n as u64
            }
        } else {
            let k: u32 = 150 - e;
            proof {
                lemma_pow2_adds((e - 1) as nat, k as nat);
                lemma_pow2_pos(k as nat);
                assert(n * pow2(149) == (n * pow2(k as nat)) * pow2((e - 1) as nat))
                    by (nonlinear_arith)
                    requires
                        pow2(149) == pow2((e - 1) as nat) * pow2(k as nat),
                ;
                lemma_cancel(m as int, n * pow2(k as nat), pow2((e - 1) as nat) as int);
            }
            if k >= 24 {
                proof {
                    if k > 24 {
                        lemma_pow2_strictly_increases(24, k as nat);
                    }
                    assert(n * pow2(k as nat) >= 0x100_0000) by (nonlinear_arith)
                        requires
                            n >= 1,
                            pow2(k as nat) >= 0x100_0000,
                    ;
                }
                false
            } else {
                let p = pow2_u64(k);
                proof {
                    lemma_pow2_strictly_increases(k as nat, 24);
                    assert(n * p < 0x100_0000_0000_0000) by (nonlinear_arith)
                        requires
                            n < 0x1_0000_0000,
                            p < 0x100_0000,
                    ;
                }
                m >= n as u64 * p
            }
        }
    }
}

} // verus!
