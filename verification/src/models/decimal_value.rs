//! A plain fixed-point decimal quantity: an integer mantissa together with a
//! power-of-ten scale, so that the represented value is
//! `mantissa / 10^scale`. This is the exact data that a decimal library
//! exposes for a quantity with up to 28 fractional digits, held here as plain
//! integers so that all arithmetic on it can be verified.

use vstd::prelude::*;

verus! {

/// `10^n` as a mathematical integer.
pub open spec fn pow10(n: nat) -> int
    decreases n,
{
    if n == 0 {
        1
    } else {
        10 * pow10((n - 1) as nat)
    }
}

pub proof fn lemma_pow10_pos(n: nat)
    ensures
        pow10(n) >= 1,
    decreases n,
{
    if n > 0 {
        lemma_pow10_pos((n - 1) as nat);
    }
}

pub proof fn lemma_pow10_increases(m: nat, n: nat)
    requires
        m <= n,
    ensures
        pow10(m) <= pow10(n),
    decreases n,
{
    if m < n {
        lemma_pow10_increases(m, (n - 1) as nat);
        lemma_pow10_pos((n - 1) as nat);
    }
}

/// `10^(a + b) == 10^a * 10^b`.
pub proof fn lemma_pow10_adds(a: nat, b: nat)
    ensures
        pow10(a + b) == pow10(a) * pow10(b),
    decreases a,
{
    if a > 0 {
        lemma_pow10_adds((a - 1) as nat, b);
        assert(pow10(a + b) == 10 * pow10(((a - 1) + b) as nat));
        assert(10 * (pow10((a - 1) as nat) * pow10(b)) == (10 * pow10((a - 1) as nat)) * pow10(b))
            by (nonlinear_arith);
    }
}

/// A decimal quantity `mantissa / 10^scale`, as plain integers.
///
/// The bounds of `wf` are those of a 96-bit decimal mantissa with at most
/// 28 fractional digits, the widest value such a quantity can take.
#[derive(Debug, Clone, Copy, PartialEq, Eq, Structural)]
pub struct DecimalValue {
    pub mantissa: i128,
    pub scale: u32,
}

impl DecimalValue {
    /// The mantissa fits in 96 bits and the scale in 28 decimal digits.
    pub open spec fn wf(self) -> bool {
        &&& self.scale <= 28
        &&& -0x1000000000000000000000000i128 < self.mantissa
        &&& self.mantissa < 0x1000000000000000000000000i128
    }

    /// Two quantities denote the same number:
    /// `a/10^s == b/10^t  <==>  a * 10^t == b * 10^s`.
    pub open spec fn same_value(self, other: DecimalValue) -> bool {
        self.mantissa * pow10(other.scale as nat) == other.mantissa * pow10(self.scale as nat)
    }
}

pub proof fn lemma_pow10_28_value()
    ensures
        pow10(28) == 10000000000000000000000000000,
{
    reveal_with_fuel(pow10, 29);
}

/// `10^n` computed at runtime; `n <= 28` keeps the result well under
/// `i128::MAX`.
pub fn pow10_i128(n: u32) -> (r: i128)
    requires
        n <= 28,
    ensures
        r == pow10(n as nat),
{
    let mut r: i128 = 1;
    let mut i: u32 = 0;
    while i < n
        invariant
            i <= n <= 28,
            r == pow10(i as nat),
        decreases n - i,
    {
        proof {
            lemma_pow10_pos(i as nat);
            lemma_pow10_increases((i + 1) as nat, 28);
            lemma_pow10_28_value();
            assert(pow10((i + 1) as nat) == 10 * pow10(i as nat));
        }
        r = r * 10;
        i = i + 1;
    }
    r
}

} // verus!
