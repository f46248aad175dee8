//! One row of the final snapshot: a client's balances as two-digit decimal
//! quantities, and whether the account is frozen.

use vstd::prelude::*;
use crate::models::decimal_value::DecimalValue;

verus! {

/// A snapshot row. `total` always equals `available + held`, taken exactly.
#[derive(Debug, Clone, Copy, PartialEq, Eq, Structural)]
pub struct OutputRecord {
    pub client: u16,
    pub available: DecimalValue,
    pub held: DecimalValue,
    pub total: DecimalValue,
    pub locked: bool,
}

} // verus!
