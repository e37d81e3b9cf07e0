//! The store: a fixed number of shards, each key routed to one by its hash.
use vstd::prelude::*;
use std::hash::{Hash, Hasher};
use crate::command::Command;
use crate::frame::{is_lookup_reply, is_ok_reply, Frame};
use crate::shard::{applied, is_reply, Shard};

verus! {

/// The digest that std's `DefaultHasher` gives for a key.
pub uninterp spec fn key_hash(k: Seq<char>) -> u64;

/// Relies on std's `DefaultHasher::new` with `str`'s `Hash`: every hasher made by
/// `new` starts from the same state, so the digest depends on the key alone.
#[verifier::external_body]
fn calculate_hash(key: &str) -> (r: u64)
    ensures
        r == key_hash(key@),
{
    let mut hasher = std::collections::hash_map::DefaultHasher::new();
    key.hash(&mut hasher);
    hasher.finish()
}

/// The shard that holds `k` in a store of `n` shards.
pub open spec fn shard_of(k: Seq<char>, n: nat) -> nat {
    (key_hash(k) as usize) as nat % n
}

/// The shard, out of `num_shards`, that holds `key`.
pub fn shard_index(key: &str, num_shards: usize) -> (r: usize)
    requires
        num_shards > 0,
    ensures
        r == shard_of(key@, num_shards as nat),
        r < num_shards,
{
    (calculate_hash(key) as usize) % num_shards
}

/// A key space split into shards; its view is the union of the shards' maps,
/// each key read from the shard that `shard_of` names.
pub struct ShardedStore {
    shards: Vec<Shard>,
}

impl View for ShardedStore {
    type V = Map<Seq<char>, Seq<u8>>;

    closed spec fn view(&self) -> Map<Seq<char>, Seq<u8>> {
        let n = self.shards@.len();
        Map::new(
            |k: Seq<char>| self.shards@[shard_of(k, n) as int]@.contains_key(k),
            |k: Seq<char>| self.shards@[shard_of(k, n) as int]@[k],
        )
    }
}

impl ShardedStore {
    /// There is at least one shard, and every shard is well formed.
    pub closed spec fn wf(&self) -> bool {
        &&& self.shards@.len() > 0
        &&& forall|i: int| 0 <= i < self.shards@.len() ==> (#[trigger] self.shards@[i]).wf()
    }

    pub closed spec fn spec_shard_count(&self) -> nat {
        self.shards@.len()
    }

    /// An empty store of `num_shards` shards.
    pub fn new(num_shards: usize) -> (r: Self)
        requires
            num_shards > 0,
        ensures
            r.wf(),
            r@ == Map::<Seq<char>, Seq<u8>>::empty(),
            r.spec_shard_count() == num_shards,
    {
        let mut shards: Vec<Shard> = Vec::with_capacity(num_shards);
        let mut i: usize = 0;
        while i < num_shards
            invariant
                i <= num_shards,
                shards@.len() == i,
                forall|j: int| 0 <= j < i ==> (#[trigger] shards@[j]).wf() && shards@[j]@
                    == Map::<Seq<char>, Seq<u8>>::empty(),
            decreases num_shards - i,
        {
            shards.push(Shard::new());
            i = i + 1;
        }
        let r = ShardedStore { shards };
        assert(r@ =~= Map::<Seq<char>, Seq<u8>>::empty());
        r
    }

    /// The number of shards, fixed when the store was made.
    pub fn shard_count(&self) -> (r: usize)
        ensures
            r == self.spec_shard_count(),
    {
        self.shards.len()
    }

    /// Stores `value` under `key` in the key's shard; replies `OK`.
    pub fn set(&mut self, key: String, value: Vec<u8>) -> (r: Frame)
        requires
            old(self).wf(),
        ensures
            final(self).wf(),
            final(self).spec_shard_count() == old(self).spec_shard_count(),
            final(self)@ == old(self)@.insert(key@, value@),
            is_ok_reply(r),
    {
        self.execute(Command::Put { key, value })
    }

    /// Replies with the bytes stored under `key`, or `Null` where there are none.
    pub fn get(&self, key: &String) -> (r: Frame)
        requires
            self.wf(),
        ensures
            is_lookup_reply(self@, key@, r),
    {
        let i = shard_index(key.as_str(), self.shards.len());
        self.shards[i].get(key)
    }

    /// Runs `cmd` on the shard of its key and returns the reply.
    pub fn execute(&mut self, cmd: Command) -> (r: Frame)
        requires
            old(self).wf(),
        ensures
            final(self).wf(),
            final(self).spec_shard_count() == old(self).spec_shard_count(),
            final(self)@ == applied(old(self)@, cmd),
            is_reply(old(self)@, cmd, r),
    {
        let n = self.shards.len();
        let i = shard_index(cmd.key().as_str(), n);
        let ghost k = cmd.spec_key();
        let ghost before = self.shards@;
        let r = self.shards[i].execute(cmd);
        proof {
            assert(self.shards@.len() == n);
            assert forall|j: int| 0 <= j < n implies (#[trigger] self.shards@[j]).wf() by {
                if j != i {
                    assert(self.shards@[j] == before[j]);
                }
            }
            assert forall|k2: Seq<char>| shard_of(k2, n as nat) != i implies self.shards@[shard_of(
                k2,
                n as nat,
            ) as int] == before[shard_of(k2, n as nat) as int] by {}
            assert(self@ =~= applied(old(self)@, cmd));
        }
        r
    }
}

} // verus!
