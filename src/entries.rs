//! Association lists keyed by strings: the storage behind every map of the library.
use vstd::prelude::*;

verus! {

/// Some entry of `s` has the key `k`.
pub open spec fn has_key<V>(s: Seq<(String, V)>, k: Seq<char>) -> bool {
    exists|i: int| 0 <= i < s.len() && #[trigger] s[i].0@ == k
}

/// No key occurs twice in `s`.
pub open spec fn keys_unique<V>(s: Seq<(String, V)>) -> bool {
    forall|i: int, j: int|
        #![trigger s[i], s[j]]
        0 <= i < s.len() && 0 <= j < s.len() && s[i].0@ == s[j].0@ ==> i == j
}

/// The position of the entry with key `k`, if there is one.
pub open spec fn index_of<V>(s: Seq<(String, V)>, k: Seq<char>) -> int {
    choose|i: int| 0 <= i < s.len() && #[trigger] s[i].0@ == k
}

/// The map that a list of entries with unique keys stands for.
pub open spec fn entries_view<V: View>(s: Seq<(String, V)>) -> Map<Seq<char>, V::V> {
    Map::new(|k: Seq<char>| has_key(s, k), |k: Seq<char>| s[index_of(s, k)].1@)
}

pub proof fn lemma_index_of<V>(s: Seq<(String, V)>, i: int)
    requires
        keys_unique(s),
        0 <= i < s.len(),
    ensures
        has_key(s, s[i].0@),
        index_of(s, s[i].0@) == i,
{
    let k = s[i].0@;
    assert(s[i].0@ == k);
    let j = index_of(s, k);
    assert(s[j].0@ == k);
}

pub proof fn lemma_empty<V: View>(s: Seq<(String, V)>)
    requires
        s.len() == 0,
    ensures
        keys_unique(s),
        entries_view(s) =~= Map::empty(),
{
}

/// Appending an entry with a fresh key adds that key to the map.
pub proof fn lemma_push<V: View>(s: Seq<(String, V)>, e: (String, V))
    requires
        keys_unique(s),
        !has_key(s, e.0@),
    ensures
        keys_unique(s.push(e)),
        entries_view(s.push(e)) =~= entries_view(s).insert(e.0@, e.1@),
{
    let t = s.push(e);
    assert(t[s.len() as int] == e);
    assert forall|i: int, j: int|
        #![trigger t[i], t[j]]
        0 <= i < t.len() && 0 <= j < t.len() && t[i].0@ == t[j].0@ implies i == j by {
        if i < s.len() && j == s.len() {
            assert(s[i].0@ == e.0@);
        }
        if j < s.len() && i == s.len() {
            assert(s[j].0@ == e.0@);
        }
        if i < s.len() && j < s.len() {
            assert(s[i] == t[i] && s[j] == t[j]);
        }
    }
    lemma_index_of(t, s.len() as int);
    assert forall|k: Seq<char>| #[trigger] has_key(t, k) == (has_key(s, k) || k == e.0@) by {
        if has_key(t, k) && k != e.0@ {
            let i = choose|i: int| 0 <= i < t.len() && #[trigger] t[i].0@ == k;
            assert(s[i].0@ == k);
        }
        if has_key(s, k) {
            let i = choose|i: int| 0 <= i < s.len() && #[trigger] s[i].0@ == k;
            assert(t[i].0@ == k);
        }
    }
    assert forall|k: Seq<char>| has_key(s, k) implies t[index_of(t, k)].1@ == s[index_of(s, k)].1@ by {
        let i = index_of(s, k);
        assert(s[i].0@ == k);
        assert(t[i] == s[i]);
        lemma_index_of(s, i);
        lemma_index_of(t, i);
    }
}

/// Replacing the value of an entry changes that key alone.
pub proof fn lemma_update<V: View>(s: Seq<(String, V)>, i: int, e: (String, V))
    requires
        keys_unique(s),
        0 <= i < s.len(),
        e.0@ == s[i].0@,
    ensures
        keys_unique(s.update(i, e)),
        entries_view(s.update(i, e)) =~= entries_view(s).insert(e.0@, e.1@),
{
    let t = s.update(i, e);
    assert forall|a: int, b: int|
        #![trigger t[a], t[b]]
        0 <= a < t.len() && 0 <= b < t.len() && t[a].0@ == t[b].0@ implies a == b by {
        assert(t[a].0@ == s[a].0@ && t[b].0@ == s[b].0@);
        assert(s[a] == s[a] && s[b] == s[b]);
    }
    assert forall|k: Seq<char>| #[trigger] has_key(t, k) == has_key(s, k) by {
        if has_key(t, k) {
            let j = choose|j: int| 0 <= j < t.len() && #[trigger] t[j].0@ == k;
            assert(s[j].0@ == k);
        }
        if has_key(s, k) {
            let j = choose|j: int| 0 <= j < s.len() && #[trigger] s[j].0@ == k;
            assert(t[j].0@ == k);
        }
    }
    lemma_index_of(s, i);
    lemma_index_of(t, i);
    assert(t[i] == e);
    assert forall|k: Seq<char>| has_key(s, k) && k != e.0@ implies t[index_of(t, k)].1@
        == s[index_of(s, k)].1@ by {
        let j = index_of(s, k);
        assert(s[j].0@ == k);
        assert(t[j] == s[j]);
        lemma_index_of(s, j);
        lemma_index_of(t, j);
    }
}

/// Taking an entry out removes its key from the map.
pub proof fn lemma_remove<V: View>(s: Seq<(String, V)>, i: int)
    requires
        keys_unique(s),
        0 <= i < s.len(),
    ensures
        keys_unique(s.remove(i)),
        entries_view(s.remove(i)) =~= entries_view(s).remove(s[i].0@),
{
    let t = s.remove(i);
    let k0 = s[i].0@;
    assert forall|j: int| 0 <= j < t.len() implies #[trigger] t[j] == if j < i {
        s[j]
    } else {
        s[j + 1]
    } by {}
    assert forall|a: int, b: int|
        #![trigger t[a], t[b]]
        0 <= a < t.len() && 0 <= b < t.len() && t[a].0@ == t[b].0@ implies a == b by {
        let a1 = if a < i { a } else { a + 1 };
        let b1 = if b < i { b } else { b + 1 };
        assert(s[a1] == t[a] && s[b1] == t[b]);
    }
    assert forall|k: Seq<char>| #[trigger] has_key(t, k) == (has_key(s, k) && k != k0) by {
        if has_key(t, k) {
            let j = choose|j: int| 0 <= j < t.len() && #[trigger] t[j].0@ == k;
            let j1 = if j < i { j } else { j + 1 };
            assert(s[j1] == t[j]);
            assert(s[j1].0@ == k);
            assert(s[i] == s[i]);
        }
        if has_key(s, k) && k != k0 {
            let j = choose|j: int| 0 <= j < s.len() && #[trigger] s[j].0@ == k;
            let j2 = if j < i { j } else { j - 1 };
            assert(t[j2] == s[j]);
            assert(t[j2].0@ == k);
        }
    }
    assert forall|k: Seq<char>| has_key(s, k) && k != k0 implies t[index_of(t, k)].1@
        == s[index_of(s, k)].1@ by {
        let j = index_of(s, k);
        assert(s[j].0@ == k);
        lemma_index_of(s, j);
        let j2 = if j < i { j } else { j - 1 };
        assert(t[j2] == s[j]);
        lemma_index_of(t, j2);
    }
}

/// The position of the entry whose key is `key`, or `None` where there is none.
pub fn find_key<V>(entries: &Vec<(String, V)>, key: &String) -> (r: Option<usize>)
    ensures
        match r {
            Some(i) => i < entries@.len() && entries@[i as int].0@ == key@,
            None => !has_key(entries@, key@),
        },
{
    let mut i: usize = 0;
    while i < entries.len()
        invariant
            i <= entries@.len(),
            forall|j: int| 0 <= j < i ==> #[trigger] entries@[j].0@ != key@,
        decreases entries@.len() - i,
    {
        if entries[i].0 == *key {
            return Some(i);
        }
        i = i + 1;
    }
    None
}

} // verus!
