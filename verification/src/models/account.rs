//! Per-client balance record. Balances are kept in centimes (hundredths of
//! the currency unit) as unsigned integers, so they can never go negative.

use vstd::prelude::*;
use crate::models::decimal_value::DecimalValue;

verus! {

/// A client's account: spendable funds, funds held under dispute, and
/// whether the account is frozen. `locked` is monotonic: no operation
/// clears it once set.
#[derive(Debug, Clone, Copy, PartialEq, Eq, Structural)]
pub struct Account {
    pub available: u32,
    pub held: u32,
    pub locked: bool,
}

impl Account {
    /// A fresh account: zero balances, unlocked.
    pub fn new() -> (a: Account)
        ensures
            a == (Account { available: 0, held: 0, locked: false }),
    {
        Account { available: 0, held: 0, locked: false }
    }

    /// The spendable balance as a two-digit decimal quantity.
    pub fn available_as_decimal(&self) -> (d: DecimalValue)
        ensures
            d == (DecimalValue { mantissa: self.available as i128, scale: 2u32 }),
    {
        DecimalValue { mantissa: self.available as i128, scale: 2 }
    }

    /// The held balance as a two-digit decimal quantity.
    pub fn held_as_decimal(&self) -> (d: DecimalValue)
        ensures
            d == (DecimalValue { mantissa: self.held as i128, scale: 2u32 }),
    {
        DecimalValue { mantissa: self.held as i128, scale: 2 }
    }

    /// The total balance, `available + held`, as a two-digit decimal
    /// quantity. The sum is taken at full width, so it is exact even when
    /// both balances are at their maximum.
    pub fn total_as_decimal(&self) -> (d: DecimalValue)
        ensures
            d.mantissa == self.available + self.held,
            d.scale == 2,
    {
        DecimalValue { mantissa: self.available as i128 + self.held as i128, scale: 2 }
    }
}

} // verus!
