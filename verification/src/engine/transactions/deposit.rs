//! Deposit: credit the client's spendable funds and record the transaction
//! so that it can later be disputed.

use vstd::prelude::*;
use crate::engine::storage::{or_new, store_unchanged, txs_unchanged, Storage, TX_CAPACITY};
use crate::engine::transactions::{amount_error_as_tx, amount_error_to_tx, sat_add_u32, OpKind,
    TxError};
use crate::engine::utils::{spec_to_centimes, DecimalToU32};
use crate::models::account::Account;
use crate::models::input_transaction::InputTransaction;
use crate::models::transaction::Transaction;

verus! {

/// Everything a deposit does. A missing, malformed or zero amount is an
/// error and leaves the store untouched. On a frozen account the funds are
/// dropped and nothing is recorded, yet the record "succeeds". Otherwise
/// the client's spendable funds grow by the amount (capped, never wrapped)
/// and a fresh undisputed transaction is recorded in the client's
/// partition, evicting at most one old record and only if that partition's
/// table held `TX_CAPACITY` entries; below that bound every other record
/// is untouched.
pub open spec fn deposit_post(
    pre: Storage,
    post: Storage,
    tx: InputTransaction,
    r: Result<(), TxError>,
) -> bool {
    match tx.amount {
        None => r == Err::<(), TxError>(TxError::MissingAmount(OpKind::Deposit))
            && store_unchanged(pre, post),
        Some(d) => match spec_to_centimes(d.mantissa as int, d.scale as nat) {
            Err(e) => r == Err::<(), TxError>(amount_error_as_tx(e)) && store_unchanged(pre, post),
            Ok(c) => if c == 0 {
                r == Err::<(), TxError>(TxError::NonPositiveAmount(OpKind::Deposit))
                    && store_unchanged(pre, post)
            } else {
                let a0 = or_new(pre.spec_account(tx.client));
                &&& r is Ok
                &&& post.wf()
                &&& post.num_shards() == pre.num_shards()
                &&& forall|c2: u16|
                    c2 != tx.client ==> post.spec_account(c2) == pre.spec_account(c2)
                &&& if a0.locked {
                    &&& post.spec_account(tx.client) == Some(a0)
                    &&& txs_unchanged(pre, post)
                } else {
                    &&& post.spec_account(tx.client) == Some(
                        Account {
                            available: sat_add_u32(a0.available, c),
                            held: a0.held,
                            locked: false,
                        },
                    )
                    &&& forall|c2: u16|
                        pre.same_shard(c2, tx.client) ==> post.spec_transaction(tx.tx, c2) == Some(
                            (tx.client, c, false),
                        )
                    &&& forall|t2: u32, c2: u16|
                        !pre.same_shard(c2, tx.client) ==> post.spec_transaction(t2, c2)
                            == pre.spec_transaction(t2, c2)
                    &&& forall|t2: u32, c2: u16|
                        pre.same_shard(c2, tx.client) && t2 != tx.tx ==> (post.spec_transaction(
                            t2,
                            c2,
                        ) == pre.spec_transaction(t2, c2) || post.spec_transaction(t2, c2) is None)
                    &&& (pre.tx_shard_contents(tx.client).contains_key(tx.tx)
                        || pre.tx_shard_contents(tx.client).dom().len() < TX_CAPACITY)
                        ==> forall|t2: u32, c2: u16|
                        !(pre.same_shard(c2, tx.client) && t2 == tx.tx) ==> post.spec_transaction(
                            t2,
                            c2,
                        ) == pre.spec_transaction(t2, c2)
                }
            },
        },
    }
}

pub fn deposit(store: &mut Storage, tx: InputTransaction) -> (r: Result<(), TxError>)
    requires
        old(store).wf(),
        tx.amount is Some ==> tx.amount.unwrap().wf(),
    ensures
        deposit_post(*old(store), *final(store), tx, r),
{
    let amount = match tx.amount {
        Some(a) => a,
        None => {
            return Err(TxError::MissingAmount(OpKind::Deposit));
        },
    };
    let amount_centimes = match amount.decimal_to_u32() {
        Ok(c) => c,
        Err(e) => {
            return Err(amount_error_to_tx(e));
        },
    };
    if amount_centimes == 0 {
        return Err(TxError::NonPositiveAmount(OpKind::Deposit));
    }
    let account = store.get_account_mut(tx.client);
    if account.locked {
        return Ok(());
    }
    account.available = account.available.saturating_add(amount_centimes);

    let stored_tx = Transaction { client: tx.client, amount: amount_centimes, disputed: false };
    store.store_transaction(tx.tx, stored_tx);

    Ok(())
}

} // verus!
