//! The transaction engine: one store and a dispatcher that routes each
//! input record to its handler by the record's type string.

pub mod laws;
pub mod sharding;
pub mod storage;
pub mod transactions;
pub mod utils;

use vstd::prelude::*;
use crate::engine::storage::{cache_contents, empty_table, store_unchanged, Storage};
use crate::engine::transactions::{
    chargeback, deposit, dispute, resolve, withdrawal, TxError,
};
use crate::engine::transactions::chargeback::chargeback_post;
use crate::engine::transactions::deposit::deposit_post;
use crate::engine::transactions::dispute::dispute_post;
use crate::engine::transactions::resolve::resolve_post;
use crate::engine::transactions::withdrawal::withdrawal_post;
use crate::models::input_transaction::InputTransaction;
use crate::models::output_record::OutputRecord;

verus! {

/// Everything one dispatched record does: the handler its type selects,
/// tried in a fixed order, or the type error with the store untouched.
pub open spec fn dispatch_post(
    pre: Storage,
    post: Storage,
    tx: InputTransaction,
    r: Result<(), TxError>,
) -> bool {
    if tx.transaction_type@ == "deposit"@ {
        deposit_post(pre, post, tx, r)
    } else if tx.transaction_type@ == "withdrawal"@ {
        withdrawal_post(pre, post, tx, r)
    } else if tx.transaction_type@ == "dispute"@ {
        dispute_post(pre, post, tx, r)
    } else if tx.transaction_type@ == "resolve"@ {
        resolve_post(pre, post, tx, r)
    } else if tx.transaction_type@ == "chargeback"@ {
        chargeback_post(pre, post, tx, r)
    } else {
        r == Err::<(), TxError>(TxError::UnknownTransactionType) && store_unchanged(pre, post)
    }
}

/// Whether the record's type reads exactly as the given text.
fn type_is(t: &String, lit: &str) -> (r: bool)
    ensures
        r == (t@ == lit@),
{
    let owned: String = lit.to_owned();
    *t == owned
}

/// The engine: a partitioned store fed one record at a time.
pub struct ToyEngine {
    pub store: Storage,
}

impl ToyEngine {
    pub open spec fn wf(self) -> bool {
        self.store.wf()
    }

    /// An engine over the default partition count, with nothing in it;
    /// every transaction table starts empty with capacity `TX_CAPACITY`.
    pub fn new() -> (e: ToyEngine)
        ensures
            e.wf(),
            forall|c: u16| e.store.spec_account(c) is None,
            forall|t: u32, c: u16| e.store.spec_transaction(t, c) is None,
            forall|i: int|
                0 <= i < e.store.transactions.shards@.len() ==> cache_contents(
                    #[trigger] e.store.transactions.shards@[i],
                ) == empty_table(),
    {
        ToyEngine { store: Storage::new() }
    }

    /// An engine over the given partition count, with nothing in it. The
    /// count is pure layout: every contract of the engine is independent
    /// of it.
    pub fn with_shard_count(num_shards: usize) -> (e: ToyEngine)
        requires
            num_shards >= 1,
        ensures
            e.wf(),
            forall|c: u16| e.store.spec_account(c) is None,
            forall|t: u32, c: u16| e.store.spec_transaction(t, c) is None,
            forall|i: int|
                0 <= i < e.store.transactions.shards@.len() ==> cache_contents(
                    #[trigger] e.store.transactions.shards@[i],
                ) == empty_table(),
    {
        ToyEngine { store: Storage::with_shard_count(num_shards) }
    }

    /// The final snapshot, strictly ascending by client id; see
    /// [`Storage::collect_accounts`].
    pub fn get_all_accounts(&self) -> (out: Vec<OutputRecord>)
        requires
            self.wf(),
        ensures
            forall|i: int, j: int|
                0 <= i < j < out@.len() ==> out@[i].client < out@[j].client,
            forall|i: int|
                0 <= i < out@.len() ==> {
                    let a = #[trigger] self.store.spec_account(out@[i].client);
                    a is Some && out@[i] == crate::engine::storage::spec_snapshot(
                        out@[i].client,
                        a.unwrap(),
                    )
                },
            forall|c: u16|
                self.store.spec_account(c) is Some ==> exists|i: int|
                    0 <= i < out@.len() && #[trigger] out@[i].client == c,
    {
        self.store.collect_accounts()
    }

    /// Routes one record to its handler; an unrecognized type is an error
    /// for that record alone and changes nothing.
    pub fn dispatch(&mut self, tx: InputTransaction) -> (r: Result<(), TxError>)
        requires
            old(self).wf(),
            tx.amount is Some ==> tx.amount.unwrap().wf(),
        ensures
            final(self).wf(),
            dispatch_post(old(self).store, final(self).store, tx, r),
    {
        let store = &mut self.store;
        if type_is(&tx.transaction_type, "deposit") {
            deposit(store, tx)
        } else if type_is(&tx.transaction_type, "withdrawal") {
            withdrawal(store, tx)
        } else if type_is(&tx.transaction_type, "dispute") {
            dispute(store, tx)
        } else if type_is(&tx.transaction_type, "resolve") {
            resolve(store, tx)
        } else if type_is(&tx.transaction_type, "chargeback") {
            chargeback(store, tx)
        } else {
            Err(TxError::UnknownTransactionType)
        }
    }
}

} // verus!
