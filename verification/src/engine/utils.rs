//! The fixed-point amount codec: a decimal quantity becomes an unsigned
//! count of centimes, or is rejected. Nothing is ever rounded; a quantity
//! that is not an exact number of centimes is refused.

use vstd::prelude::*;
use crate::models::decimal_value::{
    pow10, pow10_i128, lemma_pow10_pos, lemma_pow10_increases, lemma_pow10_28_value,
    DecimalValue,
};

verus! {

/// Why a decimal quantity was refused by the codec.
#[derive(Debug, Clone, Copy, PartialEq, Eq, Structural)]
pub enum AmountError {
    /// The quantity is below zero.
    Negative,
    /// The quantity exceeds `u32::MAX` centimes.
    TooLarge,
    /// The quantity is not an exact number of centimes.
    PrecisionLoss,
}

/// What the codec returns for the quantity `m / 10^s`: the count of
/// centimes `m * 100 / 10^s` when it is exact and fits in a `u32`, and
/// otherwise the error, checked in this order: sign, range, exactness.
pub open spec fn spec_to_centimes(m: int, s: nat) -> Result<u32, AmountError> {
    if m < 0 {
        Err(AmountError::Negative)
    } else if m * 100 > u32::MAX * pow10(s) {
        Err(AmountError::TooLarge)
    } else if (m * 100) % pow10(s) != 0 {
        Err(AmountError::PrecisionLoss)
    } else {
        Ok(((m * 100) / pow10(s)) as u32)
    }
}

/// Conversion of a decimal quantity into centimes.
///
/// The two spec methods expose the quantity as a mantissa and a scale, so
/// that the contract can be stated once for every implementor.
pub trait DecimalToU32: Sized {
    /// The integer mantissa of the quantity.
    spec fn spec_mantissa(&self) -> int;

    /// The power-of-ten scale of the quantity.
    spec fn spec_scale(&self) -> nat;

    /// The bounds under which the conversion is defined.
    spec fn spec_wf(&self) -> bool;

    /// `self` as a count of centimes, exactly; an out-of-range or inexact
    /// quantity is rejected, never rounded.
    fn decimal_to_u32(self) -> (r: Result<u32, AmountError>)
        requires
            self.spec_wf(),
        ensures
            r == spec_to_centimes(self.spec_mantissa(), self.spec_scale()),
    ;
}

impl DecimalToU32 for DecimalValue {
    open spec fn spec_mantissa(&self) -> int {
        self.mantissa as int
    }

    open spec fn spec_scale(&self) -> nat {
        self.scale as nat
    }

    open spec fn spec_wf(&self) -> bool {
        self.wf()
    }

    fn decimal_to_u32(self) -> (r: Result<u32, AmountError>) {
        if self.mantissa < 0 {
            return Err(AmountError::Negative);
        }
        proof {
            lemma_pow10_pos(self.scale as nat);
            lemma_pow10_increases(self.scale as nat, 28);
            lemma_pow10_28_value();
        }
        let p = pow10_i128(self.scale);
        let m100 = self.mantissa * 100;
        if m100 > 4294967295i128 * p {
            return Err(AmountError::TooLarge);
        }
        if m100 % p != 0 {
            return Err(AmountError::PrecisionLoss);
        }
        proof {
            let mi = m100 as int;
            let pi = p as int;
            assert(mi / pi <= (u32::MAX * pi) / pi && (u32::MAX * pi) / pi == u32::MAX)
                by (nonlinear_arith)
                requires
                    pi >= 1,
                    0 <= mi <= u32::MAX * pi,
            ;
        }
        Ok((m100 / p) as u32)
    }
}

/// No rounding drift: a quantity that the codec accepts is reproduced
/// exactly when its centime count is read back as the two-digit decimal
/// `c / 100`.
pub proof fn lemma_centimes_round_trip(d: DecimalValue, c: u32)
    requires
        d.wf(),
        spec_to_centimes(d.mantissa as int, d.scale as nat) == Ok::<u32, AmountError>(c),
    ensures
        (DecimalValue { mantissa: c as i128, scale: 2u32 }).same_value(d),
{
    let p = pow10(d.scale as nat);
    lemma_pow10_pos(d.scale as nat);
    assert(0 <= (d.mantissa * 100) / p <= u32::MAX) by (nonlinear_arith)
        requires
            p >= 1,
            0 <= d.mantissa * 100 <= u32::MAX * p,
    ;
    assert(c == (d.mantissa * 100) / p);
    assert((d.mantissa * 100) % p == 0);
    assert(c * p == d.mantissa * 100) by (nonlinear_arith)
        requires
            p >= 1,
            c == (d.mantissa * 100) / p,
            (d.mantissa * 100) % p == 0,
    ;
    assert(pow10(2) == 100) by {
        reveal_with_fuel(pow10, 3);
    }
}

} // verus!
