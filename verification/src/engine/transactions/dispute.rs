//! Dispute: move a recorded deposit's amount from the client's spendable
//! funds into held funds, pending resolution or chargeback.

use vstd::prelude::*;
use crate::engine::storage::{accounts_unchanged, or_new, txs_unchanged, Storage};
use crate::engine::transactions::{sat_add_u32, TxError};
use crate::models::account::Account;
use crate::models::input_transaction::InputTransaction;

verus! {

/// Everything a dispute does. It always "succeeds"; a missing record, a
/// wrong owner, an already-disputed record, a frozen account or
/// insufficient spendable funds each make it a silent no-op (so a dispute
/// never pushes spendable funds below zero and the same record is never
/// held twice). Otherwise the amount moves from the client's spendable to
/// held funds and the record is flagged disputed, for every client of the
/// owning partition alike.
pub open spec fn dispute_post(
    pre: Storage,
    post: Storage,
    tx: InputTransaction,
    r: Result<(), TxError>,
) -> bool {
    &&& r is Ok
    &&& post.wf()
    &&& post.num_shards() == pre.num_shards()
    &&& match pre.spec_transaction(tx.tx, tx.client) {
        None => accounts_unchanged(pre, post) && txs_unchanged(pre, post),
        Some(t) => if t.0 != tx.client || t.2 {
            accounts_unchanged(pre, post) && txs_unchanged(pre, post)
        } else {
            let a0 = or_new(pre.spec_account(tx.client));
            &&& forall|c2: u16|
                c2 != tx.client ==> post.spec_account(c2) == pre.spec_account(c2)
            &&& if !a0.locked && a0.available >= t.1 {
                &&& post.spec_account(tx.client) == Some(
                    Account {
                        available: (a0.available - t.1) as u32,
                        held: sat_add_u32(a0.held, t.1),
                        locked: a0.locked,
                    },
                )
                &&& forall|c2: u16|
                    pre.same_shard(c2, tx.client) ==> post.spec_transaction(tx.tx, c2) == Some(
                        (t.0, t.1, true),
                    )
                &&& forall|t2: u32, c2: u16|
                    !(pre.same_shard(c2, tx.client) && t2 == tx.tx) ==> post.spec_transaction(
                        t2,
                        c2,
                    ) == pre.spec_transaction(t2, c2)
            } else {
                &&& post.spec_account(tx.client) == Some(a0)
                &&& txs_unchanged(pre, post)
            }
        },
    }
}

pub fn dispute(store: &mut Storage, tx: InputTransaction) -> (r: Result<(), TxError>)
    requires
        old(store).wf(),
    ensures
        dispute_post(*old(store), *final(store), tx, r),
{
    if let Some(original_tx) = store.get_transaction(tx.tx, tx.client) {
        if original_tx.client == tx.client && !original_tx.disputed {
            let account = store.get_account_mut(tx.client);

            if !account.locked && account.available >= original_tx.amount {
                account.available = account.available - original_tx.amount;
                account.held = account.held.saturating_add(original_tx.amount);

                store.update_transaction_dispute(tx.tx, tx.client, true);
            }
        }
    }
    Ok(())
}

} // verus!
