//! The partitioned backing store: per-client accounts in hash maps, and the
//! history of accepted deposits in capacity-bounded, least-recently-used
//! caches, one of each per partition.
//!
//! The transaction tables come from the `lru` crate. Verus sees them through
//! a declared opaque type, two named spec functions for what a cache holds
//! and the capacity it was built with, and one trusted wrapper per method the
//! store calls. Everything else in this module is verified against those
//! contracts.

use vstd::prelude::*;
use std::collections::HashMap;
use std::num::NonZeroUsize;
use lru::LruCache;
use crate::engine::sharding::Shards;
use crate::models::account::Account;
use crate::models::decimal_value::DecimalValue;
use crate::models::output_record::OutputRecord;
use crate::models::transaction::Transaction;

verus! {

broadcast use vstd::std_specs::hash::group_hash_axioms, vstd::map::group_map_axioms, vstd::set::group_set_axioms;

/// Each partition's transaction table holds at most this many entries;
/// beyond it, the least-recently-used entry is evicted.
pub const TX_CAPACITY: usize = 100000;

#[verifier::external_type_specification]
#[verifier::external_body]
#[verifier::reject_recursive_types(K)]
#[verifier::reject_recursive_types(V)]
#[verifier::reject_recursive_types(S)]
pub struct ExLruCache<K, V, S>(LruCache<K, V, S>);

#[verifier::external_type_specification]
#[verifier::external_body]
pub struct ExLruDefaultHasher(lru::DefaultHasher);

/// What a transaction table holds: each resident transaction id mapped to
/// the owning client, the amount in centimes, and the disputed flag.
pub uninterp spec fn cache_contents(c: LruCache<u32, Transaction>) -> Map<u32, (u16, u32, bool)>;

/// The capacity a transaction table was built with.
pub uninterp spec fn cache_cap(c: LruCache<u32, Transaction>) -> nat;

/// A transaction table with nothing in it.
pub open spec fn empty_table() -> Map<u32, (u16, u32, bool)> {
    Map::empty()
}

/// Relies on lru::LruCache::new: a cache that is empty and holds at most
/// `cap` entries.
#[verifier::external_body]
fn cache_new(cap: usize) -> (c: LruCache<u32, Transaction>)
    requires
        cap >= 1,
    ensures
        cache_cap(c) == cap,
        cache_contents(c) == empty_table(),
{
    LruCache::new(NonZeroUsize::new(cap).unwrap())
}

/// Relies on lru::LruCache::put: an existing key's value is replaced in
/// place; a new key is inserted, evicting the least-recently-used entry
/// when, and only when, the cache is full.
#[verifier::external_body]
fn cache_put(c: &mut LruCache<u32, Transaction>, k: u32, tx: Transaction)
    ensures
        cache_cap(*final(c)) == cache_cap(*old(c)),
        cache_contents(*old(c)).contains_key(k) || cache_contents(*old(c)).dom().len()
            < cache_cap(*old(c)) ==> cache_contents(*final(c)) == cache_contents(*old(c)).insert(
            k,
            (tx.client, tx.amount, tx.disputed),
        ),
        !(cache_contents(*old(c)).contains_key(k) || cache_contents(*old(c)).dom().len()
            < cache_cap(*old(c))) ==> exists|e: u32|
            cache_contents(*old(c)).contains_key(e) && cache_contents(*final(c))
                == cache_contents(*old(c)).remove(e).insert(k, (tx.client, tx.amount, tx.disputed)),
{
    c.put(k, tx);
}

/// Relies on lru::LruCache::get: the entry for the key, if resident, is
/// returned and refreshed in recency; what the cache holds is unchanged.
#[verifier::external_body]
fn cache_get(c: &mut LruCache<u32, Transaction>, k: u32) -> (r: Option<Transaction>)
    ensures
        cache_cap(*final(c)) == cache_cap(*old(c)),
        cache_contents(*final(c)) == cache_contents(*old(c)),
        match r {
            Some(t) => cache_contents(*old(c)).contains_key(k) && cache_contents(*old(c))[k] == (
                t.client,
                t.amount,
                t.disputed,
            ),
            None => !cache_contents(*old(c)).contains_key(k),
        },
{
    c.get(&k).copied()
}

/// The account created on first touch: zero balances, unlocked.
pub open spec fn or_new(a: Option<Account>) -> Account {
    match a {
        Some(x) => x,
        None => Account { available: 0, held: 0, locked: false },
    }
}

/// The snapshot row for one client's account.
pub open spec fn spec_snapshot(client: u16, a: Account) -> OutputRecord {
    OutputRecord {
        client,
        available: DecimalValue { mantissa: a.available as i128, scale: 2u32 },
        held: DecimalValue { mantissa: a.held as i128, scale: 2u32 },
        total: DecimalValue { mantissa: (a.available + a.held) as i128, scale: 2u32 },
        locked: a.locked,
    }
}

/// The partitioned store of accounts and deposit history.
pub struct Storage {
    pub accounts: Shards<HashMap<u16, Account>>,
    pub transactions: Shards<LruCache<u32, Transaction>>,
}

impl Storage {
    /// Both shard collections are well formed, agree on the partition
    /// count, every account sits in the partition its client id selects,
    /// and every transaction table was built with `TX_CAPACITY` and holds
    /// no more than that many entries.
    pub open spec fn wf(self) -> bool {
        &&& self.accounts.wf()
        &&& self.transactions.wf()
        &&& self.accounts.shard_count == self.transactions.shard_count
        &&& forall|s: int, c: u16|
            0 <= s < self.accounts.shards@.len() && (#[trigger] self.accounts.shards@[s]@.contains_key(
                c,
            )) ==> c as int % self.accounts.shard_count as int == s
        &&& forall|s: int|
            0 <= s < self.transactions.shards@.len() ==> {
                &&& cache_cap(#[trigger] self.transactions.shards@[s]) == TX_CAPACITY
                &&& cache_contents(self.transactions.shards@[s]).dom().finite()
                &&& cache_contents(self.transactions.shards@[s]).dom().len() <= TX_CAPACITY
            }
    }

    pub open spec fn num_shards(self) -> int {
        self.accounts.shard_count as int
    }

    /// Two clients whose state lives in the same partition.
    pub open spec fn same_shard(self, a: u16, b: u16) -> bool {
        a as int % self.num_shards() == b as int % self.num_shards()
    }

    /// The account stored for `client`, if any.
    pub open spec fn spec_account(self, client: u16) -> Option<Account> {
        let shard = self.accounts.shards@[self.accounts.spec_shard_id(client)]@;
        if shard.contains_key(client) {
            Some(shard[client])
        } else {
            None
        }
    }

    /// The transaction table of the partition that owns `client`.
    pub open spec fn tx_shard_contents(self, client: u16) -> Map<u32, (u16, u32, bool)> {
        cache_contents(self.transactions.shards@[self.transactions.spec_shard_id(client)])
    }

    /// The recorded transaction that a lookup of `(tx_id, client)` reaches:
    /// the entry under `tx_id` in the partition that owns `client`, as
    /// (owning client, amount in centimes, disputed flag).
    pub open spec fn spec_transaction(self, tx_id: u32, client: u16) -> Option<(u16, u32, bool)> {
        let contents = self.tx_shard_contents(client);
        if contents.contains_key(tx_id) {
            Some(contents[tx_id])
        } else {
            None
        }
    }
}

/// No account differs between the two stores.
pub open spec fn accounts_unchanged(pre: Storage, post: Storage) -> bool {
    forall|c: u16| post.spec_account(c) == pre.spec_account(c)
}

/// No recorded transaction differs between the two stores.
pub open spec fn txs_unchanged(pre: Storage, post: Storage) -> bool {
    forall|t: u32, c: u16| post.spec_transaction(t, c) == pre.spec_transaction(t, c)
}

/// Both maps agree and the layout is intact: the store is untouched as far
/// as any observer of accounts and transactions can tell.
pub open spec fn store_unchanged(pre: Storage, post: Storage) -> bool {
    &&& post.wf()
    &&& post.num_shards() == pre.num_shards()
    &&& accounts_unchanged(pre, post)
    &&& txs_unchanged(pre, post)
}

impl Storage {
    /// A store with the given number of partitions, all empty, each
    /// transaction table an LRU cache of capacity `TX_CAPACITY`.
    pub fn with_shard_count(num_shards: usize) -> (s: Storage)
        requires
            num_shards >= 1,
        ensures
            s.wf(),
            s.num_shards() == num_shards,
            forall|c: u16| s.spec_account(c) is None,
            forall|t: u32, c: u16| s.spec_transaction(t, c) is None,
            forall|i: int|
                0 <= i < s.transactions.shards@.len() ==> cache_cap(
                    #[trigger] s.transactions.shards@[i],
                ) == TX_CAPACITY,
            forall|i: int|
                0 <= i < s.transactions.shards@.len() ==> cache_contents(
                    #[trigger] s.transactions.shards@[i],
                ) == empty_table(),
    {
        let mut account_shards: Vec<HashMap<u16, Account>> = Vec::new();
        let mut i: usize = 0;
        while i < num_shards
            invariant
                i == account_shards@.len(),
                i <= num_shards,
                forall|j: int|
                    0 <= j < i ==> (#[trigger] account_shards@[j])@ == Map::<u16, Account>::empty(),
            decreases num_shards - i,
        {
            account_shards.push(HashMap::new());
            i = i + 1;
        }
        let mut tx_shards: Vec<LruCache<u32, Transaction>> = Vec::new();
        let mut i: usize = 0;
        while i < num_shards
            invariant
                i == tx_shards@.len(),
                i <= num_shards,
                forall|j: int|
                    0 <= j < i ==> cache_contents(#[trigger] tx_shards@[j]) == Map::<
                        u32,
                        (u16, u32, bool),
                    >::empty(),
                forall|j: int| 0 <= j < i ==> cache_cap(#[trigger] tx_shards@[j]) == TX_CAPACITY,
            decreases num_shards - i,
        {
            tx_shards.push(cache_new(TX_CAPACITY));
            i = i + 1;
        }
        Storage { accounts: Shards::new(account_shards), transactions: Shards::new(tx_shards) }
    }

    /// A store with the default partition count, each transaction table
    /// an LRU cache of capacity `TX_CAPACITY`.
    pub fn new() -> (s: Storage)
        ensures
            s.wf(),
            forall|c: u16| s.spec_account(c) is None,
            forall|t: u32, c: u16| s.spec_transaction(t, c) is None,
            forall|i: int|
                0 <= i < s.transactions.shards@.len() ==> cache_cap(
                    #[trigger] s.transactions.shards@[i],
                ) == TX_CAPACITY,
            forall|i: int|
                0 <= i < s.transactions.shards@.len() ==> cache_contents(
                    #[trigger] s.transactions.shards@[i],
                ) == empty_table(),
    {
        Storage::with_shard_count(4)
    }

    /// The account for `client_id`, created with zero balances on first
    /// touch. Only this client's account changes, and only to what the
    /// caller writes through the returned reference.
    pub fn get_account_mut(&mut self, client_id: u16) -> (account: &mut Account)
        requires
            old(self).wf(),
        ensures
            *account == or_new(old(self).spec_account(client_id)),
            final(self).wf(),
            final(self).num_shards() == old(self).num_shards(),
            final(self).spec_account(client_id) == Some(*final(account)),
            forall|c2: u16|
                c2 != client_id ==> final(self).spec_account(c2) == old(self).spec_account(c2),
            txs_unchanged(*old(self), *final(self)),
            final(self).transactions == old(self).transactions,
    {
        let shard = self.accounts.get_shard(client_id);
        shard.entry(client_id).or_insert(Account::new())
    }

    /// The final snapshot: one row per account ever touched, in strictly
    /// ascending client-id order, each row exact for that account. The
    /// order is total and deterministic whatever the partition count or
    /// the internal hashing order.
    pub fn collect_accounts(&self) -> (out: Vec<OutputRecord>)
        requires
            self.wf(),
        ensures
            forall|i: int, j: int|
                0 <= i < j < out@.len() ==> out@[i].client < out@[j].client,
            forall|i: int|
                0 <= i < out@.len() ==> {
                    let a = #[trigger] self.spec_account(out@[i].client);
                    a is Some && out@[i] == spec_snapshot(out@[i].client, a.unwrap())
                },
            forall|c: u16|
                self.spec_account(c) is Some ==> exists|i: int|
                    0 <= i < out@.len() && #[trigger] out@[i].client == c,
    {
        let mut out: Vec<OutputRecord> = Vec::new();
        let shards = self.accounts.shards_slices();
        let mut c: u32 = 0;
        while c < 65536
            invariant
                self.wf(),
                shards@ == self.accounts.shards@,
                c <= 65536,
                forall|i: int| 0 <= i < out@.len() ==> (#[trigger] out@[i]).client < c,
                forall|i: int, j: int|
                    0 <= i < j < out@.len() ==> out@[i].client < out@[j].client,
                forall|i: int|
                    0 <= i < out@.len() ==> {
                        let a = #[trigger] self.spec_account(out@[i].client);
                        a is Some && out@[i] == spec_snapshot(out@[i].client, a.unwrap())
                    },
                forall|cl: u16|
                    cl < c && self.spec_account(cl) is Some ==> exists|i: int|
                        0 <= i < out@.len() && #[trigger] out@[i].client == cl,
            decreases 65536 - c,
        {
            let ghost prev_out = out@;
            let client = c as u16;
            let sid = self.accounts.shard_id(client);
            match shards[sid].get(&client) {
                Some(a) => {
                    out.push(
                        OutputRecord {
                            client,
                            available: a.available_as_decimal(),
                            held: a.held_as_decimal(),
                            total: a.total_as_decimal(),
                            locked: a.locked,
                        },
                    );
                    proof {
                        assert(out@[out@.len() - 1].client == client);
                    }
                },
                None => {
                    proof {
                        assert(self.spec_account(client) is None);
                    }
                },
            }
            proof {
                assert forall|cl: u16| cl < c + 1 && self.spec_account(cl) is Some implies exists|
                    i: int,
                |
                    0 <= i < out@.len() && #[trigger] out@[i].client == cl by {
                    if cl < c {
                        let i = choose|i: int|
                            0 <= i < prev_out.len() && #[trigger] prev_out[i].client == cl;
                        assert(out@[i].client == cl);
                    } else {
                        assert(out@[out@.len() - 1].client == cl);
                    }
                }
            }
            c = c + 1;
        }
        out
    }

    /// Records an accepted deposit in the partition that owns its client.
    /// Every client of that partition then sees it under `tx_id`; any other
    /// record either persists unchanged or, only when the partition's table
    /// was full, is evicted.
    pub fn store_transaction(&mut self, tx_id: u32, tx: Transaction)
        requires
            old(self).wf(),
        ensures
            final(self).wf(),
            final(self).num_shards() == old(self).num_shards(),
            accounts_unchanged(*old(self), *final(self)),
            forall|c2: u16|
                old(self).same_shard(c2, tx.client) ==> final(self).spec_transaction(tx_id, c2)
                    == Some((tx.client, tx.amount, tx.disputed)),
            forall|t2: u32, c2: u16|
                !old(self).same_shard(c2, tx.client) ==> final(self).spec_transaction(t2, c2)
                    == old(self).spec_transaction(t2, c2),
            forall|t2: u32, c2: u16|
                old(self).same_shard(c2, tx.client) && t2 != tx_id ==> (
                final(self).spec_transaction(t2, c2) == old(self).spec_transaction(t2, c2)
                    || final(self).spec_transaction(t2, c2) is None),
            old(self).tx_shard_contents(tx.client).contains_key(tx_id)
                || old(self).tx_shard_contents(tx.client).dom().len() < cache_cap(
                old(self).transactions.shards@[old(self).transactions.spec_shard_id(tx.client)],
            ) ==> forall|t2: u32, c2: u16|
                t2 != tx_id ==> final(self).spec_transaction(t2, c2) == old(self).spec_transaction(
                    t2,
                    c2,
                ),
    {
        let shard = self.transactions.get_shard(tx.client);
        cache_put(shard, tx_id, tx);
    }

    /// Looks up the record a dispute-family operation references: the entry
    /// under `tx_id` in the partition that owns `client_id`. The lookup
    /// counts as a use for recency, but what the store holds is unchanged.
    pub fn get_transaction(&mut self, tx_id: u32, client_id: u16) -> (r: Option<Transaction>)
        requires
            old(self).wf(),
        ensures
            store_unchanged(*old(self), *final(self)),
            match r {
                Some(t) => old(self).spec_transaction(tx_id, client_id) == Some((
                    t.client,
                    t.amount,
                    t.disputed,
                )),
                None => old(self).spec_transaction(tx_id, client_id) is None,
            },
    {
        let shard = self.transactions.get_shard(client_id);
        cache_get(shard, tx_id)
    }

    /// Sets the disputed flag of a resident record; a silent no-op if the
    /// record is absent (for instance, already evicted). Nothing else
    /// changes.
    pub fn update_transaction_dispute(&mut self, tx_id: u32, client_id: u16, disputed: bool)
        requires
            old(self).wf(),
        ensures
            final(self).wf(),
            final(self).num_shards() == old(self).num_shards(),
            accounts_unchanged(*old(self), *final(self)),
            match old(self).spec_transaction(tx_id, client_id) {
                Some(t) => {
                    &&& forall|c2: u16|
                        old(self).same_shard(c2, client_id) ==> final(self).spec_transaction(
                            tx_id,
                            c2,
                        ) == Some((t.0, t.1, disputed))
                    &&& forall|t2: u32, c2: u16|
                        !(old(self).same_shard(c2, client_id) && t2 == tx_id)
                            ==> final(self).spec_transaction(t2, c2) == old(self).spec_transaction(
                            t2,
                            c2,
                        )
                },
                None => txs_unchanged(*old(self), *final(self)),
            },
    {
        let shard = self.transactions.get_shard(client_id);
        match cache_get(shard, tx_id) {
            Some(t) => {
                cache_put(
                    shard,
                    tx_id,
                    Transaction { client: t.client, amount: t.amount, disputed },
                );
            },
            None => {},
        }
    }
}

} // verus!
