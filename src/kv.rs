//! A single-threaded string-to-string key-value store.
use vstd::prelude::*;
use crate::entries::{entries_view, find_key, keys_unique, lemma_empty, lemma_push, lemma_remove, lemma_update};

verus! {

/// A simple key-value store.
pub struct KvStore {
    store: Vec<(String, String)>,
}

impl View for KvStore {
    type V = Map<Seq<char>, Seq<char>>;

    closed spec fn view(&self) -> Map<Seq<char>, Seq<char>> {
        entries_view(self.store@)
    }
}

impl KvStore {
    /// No key is stored twice.
    pub closed spec fn wf(&self) -> bool {
        keys_unique(self.store@)
    }

    /// An empty store.
    pub fn new() -> (r: Self)
        ensures
            r.wf(),
            r@ == Map::<Seq<char>, Seq<char>>::empty(),
    {
        let r = KvStore { store: Vec::new() };
        proof { lemma_empty(r.store@); }
        r
    }

    /// Stores `value` under `key`, replacing any earlier value.
    pub fn set(&mut self, key: String, value: String)
        requires
            old(self).wf(),
        ensures
            final(self).wf(),
            final(self)@ == old(self)@.insert(key@, value@),
    {
        match find_key(&self.store, &key) {
            Some(i) => {
                proof { lemma_update(self.store@, i as int, (key, value)); }
                self.store.set(i, (key, value));
            },
            None => {
                proof { lemma_push(self.store@, (key, value)); }
                self.store.push((key, value));
            },
        }
    }

    /// The value stored under `key`, or `None` where there is none.
    pub fn get(&self, key: String) -> (r: Option<String>)
        requires
            self.wf(),
        ensures
            match r {
                Some(v) => self@.contains_key(key@) && v@ == self@[key@],
                None => !self@.contains_key(key@),
            },
    {
        match find_key(&self.store, &key) {
            Some(i) => {
                proof { crate::entries::lemma_index_of(self.store@, i as int); }
                Some(self.store[i].1.clone())
            },
            None => None,
        }
    }

    /// Takes `key` and its value out of the store; nothing happens where it is absent.
    pub fn remove(&mut self, key: String)
        requires
            old(self).wf(),
        ensures
            final(self).wf(),
            final(self)@ == old(self)@.remove(key@),
    {
        match find_key(&self.store, &key) {
            Some(i) => {
                proof { lemma_remove(self.store@, i as int); }
                self.store.remove(i);
            },
            None => {
                assert(self@ =~= self@.remove(key@));
            },
        }
    }
}

} // verus!
