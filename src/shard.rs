//! One partition of the key space: a map from string keys to byte values.
use vstd::prelude::*;
use crate::command::Command;
use crate::entries::{entries_view, find_key, keys_unique, lemma_empty, lemma_index_of, lemma_push, lemma_update};
use crate::frame::{is_lookup_reply, is_ok_reply, ok_reply, Frame};

verus! {

/// The map after `c` has run on `m`.
pub open spec fn applied(m: Map<Seq<char>, Seq<u8>>, c: Command) -> Map<Seq<char>, Seq<u8>> {
    match c {
        Command::Get { .. } => m,
        Command::Put { key, value } => m.insert(key@, value@),
    }
}

/// `r` is the reply to `c` run on `m`.
pub open spec fn is_reply(m: Map<Seq<char>, Seq<u8>>, c: Command, r: Frame) -> bool {
    match c {
        Command::Get { key } => is_lookup_reply(m, key@, r),
        Command::Put { .. } => is_ok_reply(r),
    }
}

/// A partition of the store. Callers that share it between connections hold
/// it behind a lock of their own.
pub struct Shard {
    entries: Vec<(String, Vec<u8>)>,
}

impl View for Shard {
    type V = Map<Seq<char>, Seq<u8>>;

    closed spec fn view(&self) -> Map<Seq<char>, Seq<u8>> {
        entries_view(self.entries@)
    }
}

impl Shard {
    /// No key is stored twice.
    pub closed spec fn wf(&self) -> bool {
        keys_unique(self.entries@)
    }

    pub fn new() -> (r: Self)
        ensures
            r.wf(),
            r@ == Map::<Seq<char>, Seq<u8>>::empty(),
    {
        let r = Shard { entries: Vec::new() };
        proof { lemma_empty(r.entries@); }
        r
    }

    /// Stores `value` under `key`, replacing any earlier value; replies `OK`.
    pub fn insert(&mut self, key: String, value: Vec<u8>) -> (r: Frame)
        requires
            old(self).wf(),
        ensures
            final(self).wf(),
            final(self)@ == old(self)@.insert(key@, value@),
            is_ok_reply(r),
    {
        match find_key(&self.entries, &key) {
            Some(i) => {
                proof { lemma_update(self.entries@, i as int, (key, value)); }
                self.entries.set(i, (key, value));
            },
            None => {
                proof { lemma_push(self.entries@, (key, value)); }
                self.entries.push((key, value));
            },
        }
        ok_reply()
    }

    /// Replies with the bytes stored under `key`, or `Null` where there are none.
    pub fn get(&self, key: &String) -> (r: Frame)
        requires
            self.wf(),
        ensures
            is_lookup_reply(self@, key@, r),
    {
        match find_key(&self.entries, key) {
            Some(i) => {
                proof { lemma_index_of(self.entries@, i as int); }
                let v = self.entries[i].1.clone();
                assert(v@ == self.entries@[i as int].1@);
                Frame::Bulk(v)
            },
            None => Frame::Null,
        }
    }

    /// Runs `cmd` on this shard and returns the reply.
    pub fn execute(&mut self, cmd: Command) -> (r: Frame)
        requires
            old(self).wf(),
        ensures
            final(self).wf(),
            final(self)@ == applied(old(self)@, cmd),
            is_reply(old(self)@, cmd, r),
    {
        match cmd {
            Command::Get { key } => self.get(&key),
            Command::Put { key, value } => self.insert(key, value),
        }
    }
}

} // verus!
