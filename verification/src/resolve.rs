use vstd::prelude::*;
use crate::status::Status;

verus! {

/// Minimum length, in bytes, of a binary hash token.
pub const MIN_HASH_LEN: usize = 20;

/// The path separator byte, `/`.
pub const SEP: u8 = 47;

/// A hash token is valid exactly when it is long enough to shard.
pub open spec fn valid_token(t: Seq<u8>) -> bool {
    t.len() >= MIN_HASH_LEN
}

/// The shard directory for a token: `root/` followed by the token's
/// two-byte prefix.
pub open spec fn shard_dir(root: Seq<u8>, t: Seq<u8>) -> Seq<u8> {
    root + seq![SEP] + t.subrange(0, 2)
}

/// The suffix appended to every binary object file name: `.zip`.
pub open spec fn zip_suffix() -> Seq<u8> {
    seq![46u8, 122u8, 105u8, 112u8]
}

/// The full binary object path: `root/t[0..2]/t.zip`.
pub open spec fn shard_file(root: Seq<u8>, t: Seq<u8>) -> Seq<u8> {
    shard_dir(root, t) + seq![SEP] + t + zip_suffix()
}

/// The asset object path: `root/name`, with no sharding.
pub open spec fn asset_file(root: Seq<u8>, name: Seq<u8>) -> Seq<u8> {
    root + seq![SEP] + name
}

/// A resolved binary object location: the shard directory that must exist
/// before a write, and the object file path directly under it.
#[derive(Debug)]
pub struct ShardPath {
    pub dir: Vec<u8>,
    pub file: Vec<u8>,
}

/// Appends all of `src` to `dst`.
pub fn push_all(dst: &mut Vec<u8>, src: &[u8])
    ensures
        final(dst)@ == old(dst)@ + src@,
{
    let mut i: usize = 0;
    while i < src.len()
        invariant
            i <= src.len(),
            dst@ == old(dst)@ + src@.take(i as int),
        decreases src.len() - i,
    {
        assert(src@.take(i + 1) =~= src@.take(i as int).push(src@[i as int]));
        dst.push(src[i]);
        i += 1;
    }
    assert(src@.take(src@.len() as int) =~= src@);
}

/// Resolves a binary hash token to its sharded location under `root`.
///
/// Fails with `BadRequest` exactly when the token is shorter than
/// `MIN_HASH_LEN`; on success the result is a pure function of the root and
/// the token alone, so resolution is deterministic and side-effect-free.
pub fn hash_to_file(root: &[u8], hash: &[u8]) -> (r: Result<ShardPath, Status>)
    ensures
        r is Ok <==> valid_token(hash@),
        r matches Ok(p) ==> p.dir@ == shard_dir(root@, hash@) && p.file@ == shard_file(root@, hash@),
        r matches Err(s) ==> s == Status::BadRequest,
{
    if hash.len() < MIN_HASH_LEN {
        return Err(Status::BadRequest);
    }
    let mut dir: Vec<u8> = Vec::new();
    push_all(&mut dir, root);
    dir.push(SEP);
    dir.push(hash[0]);
    dir.push(hash[1]);
    assert(dir@ =~= shard_dir(root@, hash@));

    let mut file: Vec<u8> = Vec::new();
    push_all(&mut file, dir.as_slice());
    file.push(SEP);
    push_all(&mut file, hash);
    file.push(46);
    file.push(122);
    file.push(105);
    file.push(112);
    assert(file@ =~= shard_file(root@, hash@));

    Ok(ShardPath { dir, file })
}

/// Resolves an asset name to its direct location under `root`: no sharding
/// and no length constraint.
pub fn asset_path(root: &[u8], name: &[u8]) -> (p: Vec<u8>)
    ensures
        p@ == asset_file(root@, name@),
{
    let mut path: Vec<u8> = Vec::new();
    push_all(&mut path, root);
    path.push(SEP);
    push_all(&mut path, name);
    assert(path@ =~= asset_file(root@, name@));
    path
}

/// Resolution is pure: the resolved paths depend on the root and the token
/// alone, so repeated resolutions of the same inputs yield identical paths.
pub proof fn lemma_resolve_deterministic(root1: Seq<u8>, t1: Seq<u8>, root2: Seq<u8>, t2: Seq<u8>)
    requires
        root1 == root2,
        t1 == t2,
    ensures
        shard_dir(root1, t1) == shard_dir(root2, t2),
        shard_file(root1, t1) == shard_file(root2, t2),
{
}

} // verus!
