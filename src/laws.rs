//! Properties of the store that follow from the contracts of its operations.
use vstd::prelude::*;
use crate::command::Command;
use crate::frame::{is_lookup_reply, Frame};
use crate::shard::applied;
use crate::store::shard_of;

verus! {

/// The map after the writes `w`, in order, starting from `m`.
pub open spec fn after_writes(m: Map<Seq<char>, Seq<u8>>, w: Seq<(Seq<char>, Seq<u8>)>) -> Map<
    Seq<char>,
    Seq<u8>,
>
    decreases w.len(),
{
    if w.len() == 0 {
        m
    } else {
        after_writes(m, w.drop_last()).insert(w.last().0, w.last().1)
    }
}

/// A read right after a write of `v` under `k` replies with `v`.
pub proof fn lemma_set_then_get(m: Map<Seq<char>, Seq<u8>>, k: Seq<char>, v: Seq<u8>, r: Frame)
    requires
        is_lookup_reply(m.insert(k, v), k, r),
    ensures
        r is Bulk,
        r->Bulk_0@ == v,
{
}

/// In a store that started empty, a key that no write named reads as `Null`.
pub proof fn lemma_never_set_is_null(w: Seq<(Seq<char>, Seq<u8>)>, k: Seq<char>, r: Frame)
    requires
        forall|i: int| 0 <= i < w.len() ==> (#[trigger] w[i]).0 != k,
        is_lookup_reply(after_writes(Map::empty(), w), k, r),
    ensures
        r is Null,
{
    lemma_never_set_absent(w, k);
}

proof fn lemma_never_set_absent(w: Seq<(Seq<char>, Seq<u8>)>, k: Seq<char>)
    requires
        forall|i: int| 0 <= i < w.len() ==> (#[trigger] w[i]).0 != k,
    ensures
        !after_writes(Map::empty(), w).contains_key(k),
    decreases w.len(),
{
    if w.len() > 0 {
        let p = w.drop_last();
        assert forall|i: int| 0 <= i < p.len() implies (#[trigger] p[i]).0 != k by {
            assert(p[i] == w[i]);
        }
        assert(w.last() == w[w.len() - 1]);
        lemma_never_set_absent(p, k);
    }
}

/// Of two writes to one key, a later read sees the second.
pub proof fn lemma_last_write_wins(
    m: Map<Seq<char>, Seq<u8>>,
    k: Seq<char>,
    v1: Seq<u8>,
    v2: Seq<u8>,
    r: Frame,
)
    requires
        is_lookup_reply(m.insert(k, v1).insert(k, v2), k, r),
    ensures
        r is Bulk,
        r->Bulk_0@ == v2,
{
}

/// The shard of a key depends on the key and the shard count alone, and names
/// one of the shards.
pub proof fn lemma_shard_of_stable(k1: Seq<char>, k2: Seq<char>, n: nat)
    requires
        k1 == k2,
        n > 0,
    ensures
        shard_of(k1, n) == shard_of(k2, n),
        shard_of(k1, n) < n,
{
}

/// Commands on different keys do not affect each other: running them in
/// either order leaves the same map, and each sees what it would see alone.
pub proof fn lemma_distinct_keys_commute(m: Map<Seq<char>, Seq<u8>>, a: Command, b: Command)
    requires
        a.spec_key() != b.spec_key(),
    ensures
        applied(applied(m, a), b) == applied(applied(m, b), a),
        applied(m, a).contains_key(b.spec_key()) == m.contains_key(b.spec_key()),
        applied(m, a)[b.spec_key()] == m[b.spec_key()],
{
    assert(applied(applied(m, a), b) =~= applied(applied(m, b), a));
}

} // verus!
