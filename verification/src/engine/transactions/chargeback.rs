//! Chargeback: permanently remove a disputed deposit's held funds and
//! freeze the account. The record's disputed flag is left set, as
//! chargeback never goes through the flag-clearing path.

use vstd::prelude::*;
use crate::engine::storage::{accounts_unchanged, or_new, txs_unchanged, Storage};
use crate::engine::transactions::{sat_sub_u32, TxError};
use crate::models::account::Account;
use crate::models::input_transaction::InputTransaction;

verus! {

/// Everything a chargeback does. It always "succeeds"; a missing record, a
/// wrong owner or a record not under dispute each make it a silent no-op.
/// Otherwise the held funds shrink by the amount (floored at zero) and the
/// account is frozen for good; the record stays flagged disputed.
pub open spec fn chargeback_post(
    pre: Storage,
    post: Storage,
    tx: InputTransaction,
    r: Result<(), TxError>,
) -> bool {
    &&& r is Ok
    &&& post.wf()
    &&& post.num_shards() == pre.num_shards()
    &&& match pre.spec_transaction(tx.tx, tx.client) {
        None => accounts_unchanged(pre, post) && txs_unchanged(pre, post),
        Some(t) => if t.0 != tx.client || !t.2 {
            accounts_unchanged(pre, post) && txs_unchanged(pre, post)
        } else {
            let a0 = or_new(pre.spec_account(tx.client));
            &&& forall|c2: u16|
                c2 != tx.client ==> post.spec_account(c2) == pre.spec_account(c2)
            &&& post.spec_account(tx.client) == Some(
                Account {
                    available: a0.available,
                    held: sat_sub_u32(a0.held, t.1),
                    locked: true,
                },
            )
            &&& txs_unchanged(pre, post)
        },
    }
}

pub fn chargeback(store: &mut Storage, tx: InputTransaction) -> (r: Result<(), TxError>)
    requires
        old(store).wf(),
    ensures
        chargeback_post(*old(store), *final(store), tx, r),
{
    if let Some(original_tx) = store.get_transaction(tx.tx, tx.client) {
        if original_tx.client == tx.client && original_tx.disputed {
            let account = store.get_account_mut(tx.client);

            account.held = account.held.saturating_sub(original_tx.amount);
            account.locked = true;
        }
    }
    Ok(())
}

} // verus!
