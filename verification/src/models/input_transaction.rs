//! One record of the input stream, as handed to the dispatcher.

use vstd::prelude::*;
use crate::models::decimal_value::DecimalValue;

verus! {

/// An input record: the transaction type as text, the client and
/// transaction ids, and, for deposits and withdrawals, the decimal amount.
#[derive(Debug, Clone)]
pub struct InputTransaction {
    pub transaction_type: String,
    pub client: u16,
    pub tx: u32,
    pub amount: Option<DecimalValue>,
}

} // verus!
