use vstd::prelude::*;
use crate::resolve::{shard_file, valid_token};

verus! {

/// Round trip: after a store of content `b` at a valid token `h`, the path
/// the token resolves to holds exactly `b`, so an immediate fetch returns
/// it byte for byte.
pub proof fn lemma_round_trip(
    fs: Map<Seq<u8>, Seq<u8>>,
    root: Seq<u8>,
    h: Seq<u8>,
    b: Seq<u8>,
)
    requires
        valid_token(h),
    ensures
        fs.insert(shard_file(root, h), b).contains_key(shard_file(root, h)),
        fs.insert(shard_file(root, h), b)[shard_file(root, h)] == b,
{
}

/// Idempotence: storing the same content at the same path twice leaves the
/// store exactly as one store does, so a fetch after the second store still
/// returns that content.
pub proof fn lemma_store_idempotent(fs: Map<Seq<u8>, Seq<u8>>, path: Seq<u8>, b: Seq<u8>)
    ensures
        fs.insert(path, b).insert(path, b) == fs.insert(path, b),
{
    assert(fs.insert(path, b).insert(path, b) =~= fs.insert(path, b));
}

/// Atomic visibility: installing `b2` at `path` is a single step. After it,
/// the path holds all of `b2`; before it, all of whatever was there; and no
/// other path changes. A fetch racing with the store therefore sees either
/// the complete old content or the complete new content, never a mixture.
pub proof fn lemma_store_atomic_visibility(
    fs: Map<Seq<u8>, Seq<u8>>,
    path: Seq<u8>,
    b2: Seq<u8>,
)
    ensures
        fs.insert(path, b2)[path] == b2,
        forall|p: Seq<u8>|
            p != path ==> #[trigger] fs.insert(path, b2).contains_key(p) == fs.contains_key(p),
        forall|p: Seq<u8>|
            p != path && fs.contains_key(p) ==> #[trigger] fs.insert(path, b2)[p] == fs[p],
{
}

/// Last writer wins: two stores racing at the same path each stage their
/// full content independently; whichever promotion lands last determines
/// the final content, which is one of the two in its entirety, and there is
/// no mechanism that detects or rejects the conflict.
pub proof fn lemma_last_writer_wins(
    fs: Map<Seq<u8>, Seq<u8>>,
    path: Seq<u8>,
    b1: Seq<u8>,
    b2: Seq<u8>,
)
    ensures
        fs.insert(path, b1).insert(path, b2)[path] == b2,
        fs.insert(path, b2).insert(path, b1)[path] == b1,
{
}

/// An existence check is owed `NotFound` before any store of a token's path
/// and `Okay` after a successful store of it: the path is absent before and
/// present after.
pub proof fn lemma_exists_flips_on_store(fs: Map<Seq<u8>, Seq<u8>>, path: Seq<u8>, b: Seq<u8>)
    requires
        !fs.contains_key(path),
    ensures
        fs.insert(path, b).contains_key(path),
{
}

} // verus!
