//! Withdrawal: debit the client's spendable funds when they suffice.
//! Withdrawals are never recorded, so they can never be disputed.

use vstd::prelude::*;
use crate::engine::storage::{or_new, store_unchanged, txs_unchanged, Storage};
use crate::engine::transactions::{amount_error_as_tx, amount_error_to_tx, OpKind, TxError};
use crate::engine::utils::{spec_to_centimes, DecimalToU32};
use crate::models::account::Account;
use crate::models::input_transaction::InputTransaction;

verus! {

/// Everything a withdrawal does. A missing, malformed or zero amount is an
/// error and leaves the store untouched. On a frozen account nothing
/// happens. With sufficient spendable funds they shrink by the amount;
/// with insufficient funds the record is silently skipped. No transaction
/// is ever recorded.
pub open spec fn withdrawal_post(
    pre: Storage,
    post: Storage,
    tx: InputTransaction,
    r: Result<(), TxError>,
) -> bool {
    match tx.amount {
        None => r == Err::<(), TxError>(TxError::MissingAmount(OpKind::Withdrawal))
            && store_unchanged(pre, post),
        Some(d) => match spec_to_centimes(d.mantissa as int, d.scale as nat) {
            Err(e) => r == Err::<(), TxError>(amount_error_as_tx(e)) && store_unchanged(pre, post),
            Ok(c) => if c == 0 {
                r == Err::<(), TxError>(TxError::NonPositiveAmount(OpKind::Withdrawal))
                    && store_unchanged(pre, post)
            } else {
                let a0 = or_new(pre.spec_account(tx.client));
                &&& r is Ok
                &&& post.wf()
                &&& post.num_shards() == pre.num_shards()
                &&& txs_unchanged(pre, post)
                &&& forall|c2: u16|
                    c2 != tx.client ==> post.spec_account(c2) == pre.spec_account(c2)
                &&& if !a0.locked && a0.available >= c {
                    post.spec_account(tx.client) == Some(
                        Account {
                            available: (a0.available - c) as u32,
                            held: a0.held,
                            locked: a0.locked,
                        },
                    )
                } else {
                    post.spec_account(tx.client) == Some(a0)
                }
            },
        },
    }
}

pub fn withdrawal(store: &mut Storage, tx: InputTransaction) -> (r: Result<(), TxError>)
    requires
        old(store).wf(),
        tx.amount is Some ==> tx.amount.unwrap().wf(),
    ensures
        withdrawal_post(*old(store), *final(store), tx, r),
{
    let amount = match tx.amount {
        Some(a) => a,
        None => {
            return Err(TxError::MissingAmount(OpKind::Withdrawal));
        },
    };
    let amount_centimes = match amount.decimal_to_u32() {
        Ok(c) => c,
        Err(e) => {
            return Err(amount_error_to_tx(e));
        },
    };
    if amount_centimes == 0 {
        return Err(TxError::NonPositiveAmount(OpKind::Withdrawal));
    }
    let account = store.get_account_mut(tx.client);
    if account.locked {
        return Ok(());
    }
    if account.available >= amount_centimes {
        account.available = account.available - amount_centimes;
    }
    Ok(())
}

} // verus!
