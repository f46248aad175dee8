//! The ledger's standing guarantees, proved once and for all over the
//! dispatcher's contract.

use vstd::prelude::*;
use crate::engine::dispatch_post;
use crate::engine::storage::{accounts_unchanged, or_new, txs_unchanged, Storage};
use crate::engine::transactions::TxError;
use crate::models::account::Account;
use crate::models::input_transaction::InputTransaction;

verus! {

/// Law: balances never represent negative quantities. Both are unsigned
/// counts of centimes, and every handler debits them only under a guard or
/// with a floor at zero.
pub proof fn lemma_balances_nonnegative(a: Account)
    ensures
        0 <= a.available,
        0 <= a.held,
{
}

/// Law: once an account is frozen it stays frozen, whatever record is
/// dispatched; and no deposit or withdrawal changes a frozen account's
/// balances.
pub proof fn lemma_locked_account_is_terminal(
    pre: Storage,
    post: Storage,
    tx: InputTransaction,
    r: Result<(), TxError>,
    c: u16,
)
    requires
        dispatch_post(pre, post, tx, r),
        or_new(pre.spec_account(c)).locked,
    ensures
        or_new(post.spec_account(c)).locked,
        (tx.transaction_type@ == "deposit"@ || tx.transaction_type@ == "withdrawal"@) ==> or_new(
            post.spec_account(c),
        ) == or_new(pre.spec_account(c)),
{
    reveal_strlit("deposit");
    reveal_strlit("withdrawal");
    reveal_strlit("dispute");
    reveal_strlit("resolve");
    reveal_strlit("chargeback");
}

/// Law: a record already under dispute cannot be disputed again before it
/// is resolved or charged back; the attempt changes nothing, so the same
/// funds are never held twice.
pub proof fn lemma_no_double_dispute(
    pre: Storage,
    post: Storage,
    tx: InputTransaction,
    r: Result<(), TxError>,
)
    requires
        dispatch_post(pre, post, tx, r),
        tx.transaction_type@ == "dispute"@,
        pre.spec_transaction(tx.tx, tx.client) is Some,
        pre.spec_transaction(tx.tx, tx.client).unwrap().2,
    ensures
        accounts_unchanged(pre, post),
        txs_unchanged(pre, post),
{
    reveal_strlit("deposit");
    reveal_strlit("withdrawal");
    reveal_strlit("dispute");
    assert("dispute"@[1] != "deposit"@[1]);
    assert("dispute"@.len() != "withdrawal"@.len());
}

} // verus!
