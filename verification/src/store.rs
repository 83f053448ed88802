use vstd::prelude::*;
use crate::bridge::{chunk_views, concat_chunks, copy_chunks};
use crate::resolve::{asset_file, asset_path, hash_to_file, push_all, shard_file, valid_token};
use crate::status::Status;

verus! {

/// One completed write: a full path and the entire content installed there.
pub struct WriteRecord {
    pub path: Vec<u8>,
    pub data: Vec<u8>,
}

/// The visible contents described by a journal of completed writes: each
/// path holds the data of the latest write to it.
pub open spec fn journal_view(j: Seq<WriteRecord>) -> Map<Seq<u8>, Seq<u8>>
    decreases j.len(),
{
    if j.len() == 0 {
        Map::empty()
    } else {
        journal_view(j.drop_last()).insert(j.last().path@, j.last().data@)
    }
}

/// The latest write to `path` in the journal, if any.
pub open spec fn latest_write(j: Seq<WriteRecord>, path: Seq<u8>) -> Option<Seq<u8>>
    decreases j.len(),
{
    if j.len() == 0 {
        None
    } else if j.last().path@ == path {
        Some(j.last().data@)
    } else {
        latest_write(j.drop_last(), path)
    }
}

/// The visible content at a path is exactly its latest write.
pub proof fn lemma_latest_write_view(j: Seq<WriteRecord>, path: Seq<u8>)
    ensures
        journal_view(j).contains_key(path) <==> latest_write(j, path) is Some,
        latest_write(j, path) matches Some(d) ==> journal_view(j)[path] == d,
    decreases j.len(),
{
    if j.len() > 0 {
        lemma_latest_write_view(j.drop_last(), path);
    }
}

/// Compares two byte strings.
pub fn bytes_eq(a: &[u8], b: &[u8]) -> (r: bool)
    ensures
        r == (a@ == b@),
{
    if a.len() != b.len() {
        return false;
    }
    let mut i: usize = 0;
    while i < a.len()
        invariant
            i <= a.len(),
            a@.len() == b@.len(),
            forall|j: int| 0 <= j < i ==> a@[j] == b@[j],
        decreases a.len() - i,
    {
        if a[i] != b[i] {
            return false;
        }
        i += 1;
    }
    assert(a@ =~= b@);
    true
}

/// In-memory model of the filesystem namespace under the two storage roots.
///
/// The state is an append-only journal of completed writes; the view is the
/// map from each written path to its latest content. Installing an object is
/// a single journal append, which mirrors the single visibility-changing
/// step — the atomic rename — of the on-disk write protocol: no state in
/// which a path holds part of a write ever exists.
pub struct Store {
    binary_root: Vec<u8>,
    asset_root: Vec<u8>,
    journal: Vec<WriteRecord>,
}

impl View for Store {
    type V = Map<Seq<u8>, Seq<u8>>;

    closed spec fn view(&self) -> Map<Seq<u8>, Seq<u8>> {
        journal_view(self.journal@)
    }
}

impl Store {
    /// The root under which binary objects are sharded.
    pub closed spec fn spec_binary_root(&self) -> Seq<u8> {
        self.binary_root@
    }

    /// The root under which assets are stored directly.
    pub closed spec fn spec_asset_root(&self) -> Seq<u8> {
        self.asset_root@
    }

    /// The path a binary hash token denotes in this store.
    pub open spec fn binary_path(&self, hash: Seq<u8>) -> Seq<u8> {
        shard_file(self.spec_binary_root(), hash)
    }

    /// The path an asset name denotes in this store.
    pub open spec fn spec_asset_path(&self, name: Seq<u8>) -> Seq<u8> {
        asset_file(self.spec_asset_root(), name)
    }

    /// Creates an empty store over the two roots.
    pub fn new(binary_root: Vec<u8>, asset_root: Vec<u8>) -> (s: Store)
        ensures
            s@ == Map::<Seq<u8>, Seq<u8>>::empty(),
            s.spec_binary_root() == binary_root@,
            s.spec_asset_root() == asset_root@,
    {
        Store { binary_root, asset_root, journal: Vec::new() }
    }

    /// True when nothing has ever been stored under either root.
    pub fn is_empty(&self) -> (r: bool)
        ensures
            r == (self@ == Map::<Seq<u8>, Seq<u8>>::empty()),
    {
        if self.journal.len() == 0 {
            true
        } else {
            proof {
                assert(self@.contains_key(self.journal@.last().path@));
            }
            false
        }
    }

    /// Finds the journal index of the latest write to `path`, if any.
    fn find_latest(&self, path: &[u8]) -> (r: Option<usize>)
        ensures
            r matches Some(i) ==> i < self.journal@.len()
                && latest_write(self.journal@, path@) == Some(self.journal@[i as int].data@),
            r is None ==> latest_write(self.journal@, path@) is None,
    {
        let mut i: usize = self.journal.len();
        assert(self.journal@.take(self.journal@.len() as int) =~= self.journal@);
        while i > 0
            invariant
                i <= self.journal@.len(),
                latest_write(self.journal@, path@)
                    == latest_write(self.journal@.take(i as int), path@),
            decreases i,
        {
            i -= 1;
            assert(self.journal@.take(i + 1).drop_last() =~= self.journal@.take(i as int));
            assert(self.journal@.take(i + 1).last() == self.journal@[i as int]);
            if bytes_eq(self.journal[i].path.as_slice(), path) {
                return Some(i);
            }
        }
        None
    }

    /// The atomic write protocol: stream the chunks into a private staging
    /// buffer, never visible under `path`, then install the complete content
    /// in one step. Returns the number of bytes written. Every other path
    /// keeps its previous content, and no intermediate state at `path` is
    /// ever observable.
    pub fn store_atomic(&mut self, path: Vec<u8>, chunks: &Vec<Vec<u8>>) -> (n: usize)
        ensures
            final(self)@ == old(self)@.insert(path@, concat_chunks(chunk_views(chunks@))),
            n == concat_chunks(chunk_views(chunks@)).len(),
            final(self).spec_binary_root() == old(self).spec_binary_root(),
            final(self).spec_asset_root() == old(self).spec_asset_root(),
    {
        let mut staged: Vec<u8> = Vec::new();
        let n = copy_chunks(chunks, &mut staged);
        let ghost prev = self.journal@;
        self.journal.push(WriteRecord { path, data: staged });
        proof {
            assert(self.journal@.drop_last() =~= prev);
        }
        n
    }

    /// `StoreBinary`: resolve the token, then run the atomic write protocol
    /// at the sharded path. A short token is rejected as `BadRequest` and
    /// the store is left untouched; a valid token always succeeds, installs
    /// the full streamed content, and reports the byte count.
    pub fn store_binary(&mut self, hash: &[u8], chunks: &Vec<Vec<u8>>) -> (r: Result<usize, Status>)
        ensures
            final(self).spec_binary_root() == old(self).spec_binary_root(),
            final(self).spec_asset_root() == old(self).spec_asset_root(),
            r is Ok <==> valid_token(hash@),
            r matches Ok(n) ==> n == concat_chunks(chunk_views(chunks@)).len()
                && final(self)@ == old(self)@.insert(
                    old(self).binary_path(hash@),
                    concat_chunks(chunk_views(chunks@)),
                ),
            r matches Err(s) ==> s == Status::BadRequest && final(self)@ == old(self)@,
    {
        let path = match hash_to_file(self.binary_root.as_slice(), hash) {
            Ok(p) => p.file,
            Err(s) => {
                return Err(s);
            },
        };
        let n = self.store_atomic(path, chunks);
        Ok(n)
    }

    /// `StoreAsset`: join the name directly under the asset root — no length
    /// check, no sharding — and write the streamed content there. The
    /// on-disk counterpart writes the destination in place, so it carries
    /// none of the binary path's atomicity; the model records only the
    /// completed write.
    pub fn store_asset(&mut self, name: &[u8], chunks: &Vec<Vec<u8>>) -> (n: usize)
        ensures
            final(self).spec_binary_root() == old(self).spec_binary_root(),
            final(self).spec_asset_root() == old(self).spec_asset_root(),
            n == concat_chunks(chunk_views(chunks@)).len(),
            final(self)@ == old(self)@.insert(
                old(self).spec_asset_path(name@),
                concat_chunks(chunk_views(chunks@)),
            ),
    {
        let path = asset_path(self.asset_root.as_slice(), name);
        self.store_atomic(path, chunks)
    }

    /// `Exists`/HEAD: resolve the token and report whether an object is present,
    /// with no body: `Okay` if present, `NotFound` if absent, `BadRequest`
    /// if the token is too short.
    pub fn head(&self, hash: &[u8]) -> (r: Status)
        ensures
            r == Status::Okay <==> valid_token(hash@) && self@.contains_key(
                self.binary_path(hash@)),
            r == Status::NotFound <==> valid_token(hash@) && !self@.contains_key(
                self.binary_path(hash@)),
            r == Status::BadRequest <==> !valid_token(hash@),
    {
        let path = match hash_to_file(self.binary_root.as_slice(), hash) {
            Ok(p) => p.file,
            Err(_) => {
                return Status::BadRequest;
            },
        };
        proof {
            lemma_latest_write_view(self.journal@, path@);
        }
        match self.find_latest(path.as_slice()) {
            Some(_) => Status::Okay,
            None => Status::NotFound,
        }
    }

    /// Reads a copy of the complete content visible at `path`, if any. This
    /// is the read side of the bridge: the caller chunks the returned bytes
    /// for transmission.
    pub fn read_object(&self, path: &[u8]) -> (r: Option<Vec<u8>>)
        ensures
            r is Some <==> self@.contains_key(path@),
            r matches Some(data) ==> data@ == self@[path@],
    {
        proof {
            lemma_latest_write_view(self.journal@, path@);
        }
        match self.find_latest(path) {
            Some(i) => {
                let mut data: Vec<u8> = Vec::new();
                push_all(&mut data, self.journal[i].data.as_slice());
                Some(data)
            },
            None => None,
        }
    }

    /// `Fetch`: resolve the token and return a copy of the complete stored
    /// content. A short token is `BadRequest`; a valid token with no stored
    /// object is `NotFound`; otherwise the full bytes come back, whose
    /// length the caller reports as the content-length header.
    pub fn fetch(&self, hash: &[u8]) -> (r: Result<Vec<u8>, Status>)
        ensures
            r is Ok <==> valid_token(hash@) && self@.contains_key(self.binary_path(hash@)),
            r matches Ok(data) ==> data@ == self@[self.binary_path(hash@)],
            r matches Err(s) ==> (s == Status::BadRequest <==> !valid_token(hash@))
                && (s == Status::NotFound <==> valid_token(hash@)),
    {
        let path = match hash_to_file(self.binary_root.as_slice(), hash) {
            Ok(p) => p.file,
            Err(s) => {
                return Err(s);
            },
        };
        match self.read_object(path.as_slice()) {
            Some(data) => Ok(data),
            None => Err(Status::NotFound),
        }
    }
}

} // verus!
