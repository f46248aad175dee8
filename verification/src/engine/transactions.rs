//! The five transaction handlers and the errors they report. Every
//! "failure-like" condition other than a missing, malformed or non-positive
//! amount (and an unrecognized record type) is a defined, silent no-op:
//! stale or malicious dispute-family records must not corrupt the ledger.

pub mod chargeback;
pub mod deposit;
pub mod dispute;
pub mod resolve;
pub mod withdrawal;

pub use chargeback::chargeback;
pub use deposit::deposit;
pub use dispute::dispute;
pub use resolve::resolve;
pub use withdrawal::withdrawal;

use vstd::prelude::*;
use vstd::string::StringExecFns;
use crate::engine::utils::AmountError;

verus! {

/// Which of the two amount-carrying operations a record asked for.
#[derive(Debug, Clone, Copy, PartialEq, Eq, Structural)]
pub enum OpKind {
    Deposit,
    Withdrawal,
}

/// A per-record error. None of these aborts the stream; the caller decides
/// whether to go on.
#[derive(Debug, Clone, Copy, PartialEq, Eq, Structural)]
pub enum TxError {
    /// A deposit or withdrawal came without an amount.
    MissingAmount(OpKind),
    /// The decoded amount is zero.
    NonPositiveAmount(OpKind),
    /// The amount is below zero.
    AmountNegative,
    /// The amount exceeds the largest representable balance.
    AmountTooLarge,
    /// The amount is not an exact number of centimes.
    AmountPrecisionLoss,
    /// The record's type is none of the five known ones.
    UnknownTransactionType,
}

/// The per-record error that reports an amount the codec refused.
pub open spec fn amount_error_as_tx(e: AmountError) -> TxError {
    match e {
        AmountError::Negative => TxError::AmountNegative,
        AmountError::TooLarge => TxError::AmountTooLarge,
        AmountError::PrecisionLoss => TxError::AmountPrecisionLoss,
    }
}

pub fn amount_error_to_tx(e: AmountError) -> (r: TxError)
    ensures
        r == amount_error_as_tx(e),
{
    match e {
        AmountError::Negative => TxError::AmountNegative,
        AmountError::TooLarge => TxError::AmountTooLarge,
        AmountError::PrecisionLoss => TxError::AmountPrecisionLoss,
    }
}

impl TxError {
    /// A human-readable description of the error.
    pub fn message(&self) -> (s: String)
        ensures
            match *self {
                TxError::MissingAmount(OpKind::Deposit) => s@ == "Deposit requires amount"@,
                TxError::MissingAmount(OpKind::Withdrawal) => s@ == "Withdrawal requires amount"@,
                TxError::NonPositiveAmount(OpKind::Deposit) => s@
                    == "Deposit amount must be positive -> tx ignored"@,
                TxError::NonPositiveAmount(OpKind::Withdrawal) => s@
                    == "Withdrawal amount must be positive -> tx ignored"@,
                TxError::AmountNegative => s@ == "Amount cannot be negative"@,
                TxError::AmountTooLarge => s@ == "Amount too large"@,
                TxError::AmountPrecisionLoss => s@ == "Invalid amount precision"@,
                TxError::UnknownTransactionType => s@ == "Unexpected transaction type"@,
            },
    {
        match *self {
            TxError::MissingAmount(OpKind::Deposit) => String::from_str("Deposit requires amount"),
            TxError::MissingAmount(OpKind::Withdrawal) => String::from_str(
                "Withdrawal requires amount",
            ),
            TxError::NonPositiveAmount(OpKind::Deposit) => String::from_str(
                "Deposit amount must be positive -> tx ignored",
            ),
            TxError::NonPositiveAmount(OpKind::Withdrawal) => String::from_str(
                "Withdrawal amount must be positive -> tx ignored",
            ),
            TxError::AmountNegative => String::from_str("Amount cannot be negative"),
            TxError::AmountTooLarge => String::from_str("Amount too large"),
            TxError::AmountPrecisionLoss => String::from_str("Invalid amount precision"),
            TxError::UnknownTransactionType => String::from_str("Unexpected transaction type"),
        }
    }
}

/// `a + b`, capped at the largest representable balance.
pub open spec fn sat_add_u32(a: u32, b: u32) -> u32 {
    if a + b > u32::MAX {
        u32::MAX
    } else {
        (a + b) as u32
    }
}

/// `a - b`, floored at zero.
pub open spec fn sat_sub_u32(a: u32, b: u32) -> u32 {
    if a >= b {
        (a - b) as u32
    } else {
        0
    }
}

} // verus!
