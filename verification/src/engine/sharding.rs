//! Fixed partitioning of per-client state. A client's partition is chosen by
//! `client_id mod shard_count`, so all of one client's state lives in a
//! single partition.

use vstd::prelude::*;

verus! {

/// A fixed, non-empty collection of partitions indexed by client id.
#[derive(Debug)]
pub struct Shards<T> {
    pub shards: Vec<T>,
    pub shard_count: usize,
}

impl<T> Shards<T> {
    /// The recorded count matches the partitions held, and there is at
    /// least one of them.
    pub open spec fn wf(self) -> bool {
        &&& self.shard_count == self.shards@.len()
        &&& self.shard_count >= 1
    }

    /// The partition that owns `client_id`.
    pub open spec fn spec_shard_id(self, client_id: u16) -> int {
        client_id as int % self.shard_count as int
    }

    pub fn new(shards: Vec<T>) -> (s: Shards<T>)
        requires
            shards@.len() >= 1,
        ensures
            s.wf(),
            s.shards@ == shards@,
            s.shard_count == shards@.len(),
    {
        let shard_count = shards.len();
        Shards { shards, shard_count }
    }

    pub fn shard_id(&self, client_id: u16) -> (id: usize)
        requires
            self.wf(),
        ensures
            id == self.spec_shard_id(client_id),
            id < self.shard_count,
    {
        (client_id as usize) % self.shard_count
    }

    pub fn get_shard(&mut self, client_id: u16) -> (shard: &mut T)
        requires
            old(self).wf(),
        ensures
            *shard == old(self).shards@[old(self).spec_shard_id(client_id)],
            final(self).shards@ == old(self).shards@.update(
                old(self).spec_shard_id(client_id),
                *final(shard),
            ),
            final(self).shard_count == old(self).shard_count,
            final(self).wf(),
    {
        let shard_id = self.shard_id(client_id);
        &mut self.shards[shard_id]
    }

    pub fn shards_slices(&self) -> (s: &[T])
        ensures
            s@ == self.shards@,
    {
        self.shards.as_slice()
    }
}

} // verus!
