//! Resolve: release a disputed deposit's held funds back into the client's
//! spendable funds. Deliberately, no account-lock check is applied here:
//! a resolve proceeds even on a frozen account.

use vstd::prelude::*;
use crate::engine::storage::{accounts_unchanged, or_new, txs_unchanged, Storage};
use crate::engine::transactions::{sat_add_u32, sat_sub_u32, TxError};
use crate::models::account::Account;
use crate::models::input_transaction::InputTransaction;

verus! {

/// Everything a resolve does. It always "succeeds"; a missing record, a
/// wrong owner or a record not under dispute each make it a silent no-op.
/// Otherwise the amount moves from held funds (floored at zero) back to
/// spendable funds (capped, never wrapped) and the record's disputed flag
/// is cleared, so the same deposit may later be disputed again.
pub open spec fn resolve_post(
    pre: Storage,
    post: Storage,
    tx: InputTransaction,
    r: Result<(), TxError>,
) -> bool {
    &&& r is Ok
    &&& post.wf()
    &&& post.num_shards() == pre.num_shards()
    &&& match pre.spec_transaction(tx.tx, tx.client) {
        None => accounts_unchanged(pre, post) && txs_unchanged(pre, post),
        Some(t) => if t.0 != tx.client || !t.2 {
            accounts_unchanged(pre, post) && txs_unchanged(pre, post)
        } else {
            let a0 = or_new(pre.spec_account(tx.client));
            &&& forall|c2: u16|
                c2 != tx.client ==> post.spec_account(c2) == pre.spec_account(c2)
            &&& post.spec_account(tx.client) == Some(
                Account {
                    available: sat_add_u32(a0.available, t.1),
                    held: sat_sub_u32(a0.held, t.1),
                    locked: a0.locked,
                },
            )
            &&& forall|c2: u16|
                pre.same_shard(c2, tx.client) ==> post.spec_transaction(tx.tx, c2) == Some(
                    (t.0, t.1, false),
                )
            &&& forall|t2: u32, c2: u16|
                !(pre.same_shard(c2, tx.client) && t2 == tx.tx) ==> post.spec_transaction(t2, c2)
                    == pre.spec_transaction(t2, c2)
        },
    }
}

pub fn resolve(store: &mut Storage, tx: InputTransaction) -> (r: Result<(), TxError>)
    requires
        old(store).wf(),
    ensures
        resolve_post(*old(store), *final(store), tx, r),
{
    if let Some(original_tx) = store.get_transaction(tx.tx, tx.client) {
        if original_tx.client == tx.client && original_tx.disputed {
            let account = store.get_account_mut(tx.client);

            account.held = account.held.saturating_sub(original_tx.amount);
            account.available = account.available.saturating_add(original_tx.amount);

            store.update_transaction_dispute(tx.tx, tx.client, false);
        }
    }
    Ok(())
}

} // verus!
