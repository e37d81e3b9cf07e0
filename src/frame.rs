//! Protocol frames: the values that travel between a client and the server.
use vstd::prelude::*;
use vstd::string::StringExecFns;

verus! {

/// One self-delimiting unit of the wire protocol.
#[derive(Debug, PartialEq, Eq)]
pub enum Frame {
    Simple(String),
    Error(String),
    Integer(i64),
    Bulk(Vec<u8>),
    Null,
    Array(Vec<Frame>),
}

/// The reply to a successful write: `Simple("OK")`.
pub open spec fn is_ok_reply(f: Frame) -> bool {
    f is Simple && f->Simple_0@ == "OK"@
}

/// The reply to a read: the stored bytes where `m` holds `k`, else `Null`.
pub open spec fn is_lookup_reply(m: Map<Seq<char>, Seq<u8>>, k: Seq<char>, f: Frame) -> bool {
    if m.contains_key(k) {
        f is Bulk && f->Bulk_0@ == m[k]
    } else {
        f is Null
    }
}

/// `Simple("OK")`.
pub fn ok_reply() -> (r: Frame)
    ensures
        is_ok_reply(r),
{
    Frame::Simple(String::from_str("OK"))
}

/// The error frame sent back when a shard's lock cannot be taken; `detail` says why.
pub fn lock_failure(detail: &str) -> (r: Frame)
    ensures
        r is Error,
        r->Error_0@ == "Failed obtaining lock: "@ + detail@,
{
    Frame::Error(String::from_str("Failed obtaining lock: ").concat(detail))
}

} // verus!
