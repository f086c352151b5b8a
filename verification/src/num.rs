//! Numbers that cross from the platform as IEEE-754 doubles, held by their bit patterns. The
//! library carries them from where they arrive to where they are used and reads only what its
//! decisions need: the sign, and the whole part.
use vstd::prelude::*;

verus! {

/// A double by its bit pattern (`f64::to_bits`).
#[derive(Clone, Copy, Debug, PartialEq, Eq, Structural)]
pub struct Num {
    pub bits: u64,
}

/// The bit pattern of positive infinity: patterns above it, below the sign bit, are not numbers.
pub const INFINITY: u64 = 0x7ff0_0000_0000_0000;

/// The sign bit.
pub const SIGN: u64 = 0x8000_0000_0000_0000;

/// Two to the power `n`.
pub open spec fn two_to(n: nat) -> nat
    decreases n,
{
    if n == 0 {
        1
    } else {
        2 * two_to((n - 1) as nat)
    }
}

impl View for Num {
    type V = Num;

    open spec fn view(&self) -> Num {
        *self
    }
}

impl Num {
    /// The pattern without its sign.
    pub open spec fn magnitude(self) -> u64 {
        if self.bits >= SIGN {
            (self.bits - SIGN) as u64
        } else {
            self.bits
        }
    }

    /// Neither a finite number nor an infinity.
    pub open spec fn not_a_number(self) -> bool {
        self.magnitude() > INFINITY
    }

    /// Above zero.
    pub open spec fn positive(self) -> bool {
        0 < self.bits <= INFINITY
    }

    /// Zero, of either sign, or above it.
    pub open spec fn not_below_zero(self) -> bool {
        self.bits <= INFINITY || self.bits == SIGN
    }

    /// Different from zero, of either sign; so is what is not a number.
    pub open spec fn nonzero(self) -> bool {
        self.magnitude() != 0
    }

    /// The exponent field.
    pub open spec fn exponent(self) -> nat {
        (self.magnitude() / 0x10_0000_0000_0000) as nat
    }

    /// The significand, with the leading one that the pattern leaves out.
    pub open spec fn significand(self) -> nat {
        (self.magnitude() % 0x10_0000_0000_0000 + 0x10_0000_0000_0000) as nat
    }

    /// The whole part of the absolute value: the value is the significand times two to the
    /// power of the exponent field less 1075.
    pub open spec fn whole(self) -> nat {
        if self.exponent() < 1023 {
            0
        } else if self.exponent() < 1075 {
            self.significand() / two_to((1075 - self.exponent()) as nat)
        } else {
            self.significand() * two_to((self.exponent() - 1075) as nat)
        }
    }

    /// The value cut to an unsigned integer no greater than `max`: what is negative or not a
    /// number gives zero, what is too large gives `max`.
    pub open spec fn cut(self, max: nat) -> nat {
        if self.not_a_number() || self.bits >= SIGN {
            0
        } else if self.magnitude() == INFINITY || self.whole() > max {
            max
        } else {
            self.whole()
        }
    }

    /// The value cut to a signed 64-bit integer.
    pub open spec fn cut_signed(self) -> int {
        if self.not_a_number() {
            0
        } else if self.bits >= SIGN {
            if self.magnitude() == INFINITY || self.whole() > 0x8000_0000_0000_0000 {
                -0x8000_0000_0000_0000
            } else {
                -(self.whole() as int)
            }
        } else if self.magnitude() == INFINITY || self.whole() > 0x7fff_ffff_ffff_ffff {
            0x7fff_ffff_ffff_ffff
        } else {
            self.whole() as int
        }
    }

    /// The number zero.
    pub fn zero() -> (n: Num)
        ensures
            n.bits == 0,
            !n.nonzero(),
    {
        Num { bits: 0 }
    }

    /// Whether the number is above zero.
    pub fn is_positive(self) -> (b: bool)
        ensures
            b == self.positive(),
    {
        0 < self.bits && self.bits <= INFINITY
    }

    /// Whether the number is zero or above it.
    pub fn is_not_below_zero(self) -> (b: bool)
        ensures
            b == self.not_below_zero(),
    {
        self.bits <= INFINITY || self.bits == SIGN
    }

    /// Whether the number differs from zero.
    pub fn is_nonzero(self) -> (b: bool)
        ensures
            b == self.nonzero(),
    {
        self.bits != 0 && self.bits != SIGN
    }

    /// The whole part of the absolute value, or the largest `u64` where it does not fit.
    fn whole_part(self) -> (w: u64)
        ensures
            self.magnitude() != INFINITY && self.whole() <= u64::MAX ==> w == self.whole(),
            self.magnitude() == INFINITY || self.whole() > u64::MAX ==> w == u64::MAX,
    {
        let m: u64 = if self.bits >= SIGN {
            self.bits - SIGN
        } else {
            self.bits
        };
        let e: u64 = m / 0x10_0000_0000_0000;
        let s: u64 = m % 0x10_0000_0000_0000 + 0x10_0000_0000_0000;
        if e < 1023 {
            0
        } else if e < 1075 {
            let p = power_of_two(1075 - e);
            s / p
        } else if e <= 1086 {
            let p = power_of_two(e - 1075);
            proof {
                two_to_grows((e - 1075) as nat, 11);
                assert(two_to(11) == 2048) by {
                    reveal_with_fuel(two_to, 12);
                }
                assert(s * p <= 0x1f_ffff_ffff_ffff * 2048) by (nonlinear_arith)
                    requires
                        s <= 0x1f_ffff_ffff_ffff,
                        p <= 2048,
                ;
            }
            s * p
        } else {
            proof {
                two_to_grows(12, (e - 1075) as nat);
                assert(two_to(12) == 4096) by {
                    reveal_with_fuel(two_to, 13);
                }
                let p = two_to((e - 1075) as nat);
                assert(s * p >= 0x10_0000_0000_0000 * 4096) by (nonlinear_arith)
                    requires
                        s >= 0x10_0000_0000_0000,
                        p >= 4096,
                ;
            }
            u64::MAX
        }
    }

    /// The number as an unsigned 64-bit integer: cut towards zero, held to the type's range.
    pub fn to_u64(self) -> (w: u64)
        ensures
            w == self.cut(u64::MAX as nat),
    {
        if self.bits >= SIGN || self.bits > INFINITY {
            0
        } else {
            self.whole_part()
        }
    }

    /// The number as an unsigned 32-bit integer: cut towards zero, held to the type's range.
    pub fn to_u32(self) -> (w: u32)
        ensures
            w == self.cut(u32::MAX as nat),
    {
        let w = self.to_u64();
        if w > 0xffff_ffff {
            0xffff_ffff
        } else {
            w as u32
        }
    }

    /// The number as a signed 64-bit integer: cut towards zero, held to the type's range.
    pub fn to_i64(self) -> (w: i64)
        ensures
            w == self.cut_signed(),
    {
        let negative = self.bits >= SIGN;
        let m: u64 = if negative {
            self.bits - SIGN
        } else {
            self.bits
        };
        if m > INFINITY {
            return 0;
        }
        let w = self.whole_part();
        if negative {
            if w >= 0x8000_0000_0000_0000 {
                i64::MIN
            } else {
                -(w as i64)
            }
        } else if w > 0x7fff_ffff_ffff_ffff {
            i64::MAX
        } else {
            w as i64
        }
    }
}

proof fn two_to_grows(a: nat, b: nat)
    requires
        a <= b,
    ensures
        1 <= two_to(a) <= two_to(b),
    decreases b,
{
    if a < b {
        two_to_grows(a, (b - 1) as nat);
    } else if a > 0 {
        two_to_grows((a - 1) as nat, (a - 1) as nat);
    }
}

proof fn two_to_sixty()
    ensures
        two_to(60) == 0x1000_0000_0000_0000,
{
    reveal_with_fuel(two_to, 11);
    assert(two_to(10) == 1024);
    assert(two_to(20) == 1024 * two_to(10));
    assert(two_to(30) == 1024 * two_to(20));
    assert(two_to(40) == 1024 * two_to(30));
    assert(two_to(50) == 1024 * two_to(40));
    assert(two_to(60) == 1024 * two_to(50));
}

fn power_of_two(n: u64) -> (p: u64)
    requires
        n <= 60,
    ensures
        p == two_to(n as nat),
        p > 0,
{
    let mut p: u64 = 1;
    let mut i: u64 = 0;
    while i < n
        invariant
            i <= n <= 60,
            p == two_to(i as nat),
        decreases n - i,
    {
        proof {
            two_to_grows((i + 1) as nat, 60);
            two_to_sixty();
        }
        p = p * 2;
        i = i + 1;
    }
    proof {
        two_to_grows(0, n as nat);
    }
    p
}

} // verus!
