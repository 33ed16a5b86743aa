//! The local cache store: for each relative path, the digest last computed for
//! the file and the modification time it had then.

use vstd::prelude::*;

use crate::text::str_eq;

verus! {

/// A file modification time, as seconds and nanoseconds since the Unix epoch.
#[derive(PartialEq, Eq, Structural, Clone, Copy, Debug)]
pub struct ModTime {
    pub secs: u64,
    pub nanos: u32,
}

/// What the cache records for one path.
#[derive(Debug)]
pub struct CachedFileInfo {
    pub hash: String,
    pub last_modified: ModTime,
}

/// The abstract value of a cache record: digest and modification time.
pub type CacheRecord = (Seq<char>, ModTime);

/// What the records say of a key: the latest record for it, if any.
pub open spec fn lookup(records: Seq<(String, CachedFileInfo)>, key: Seq<char>) -> Option<
    CacheRecord,
>
    decreases records.len(),
{
    if records.len() == 0 {
        None
    } else if records.last().0@ == key {
        Some((records.last().1.hash@, records.last().1.last_modified))
    } else {
        lookup(records.drop_last(), key)
    }
}

/// The mapping from relative path to (digest, modification time). A later
/// record for a path replaces an earlier one.
pub struct FileCache {
    records: Vec<(String, CachedFileInfo)>,
}

impl View for FileCache {
    type V = Map<Seq<char>, CacheRecord>;

    closed spec fn view(&self) -> Map<Seq<char>, CacheRecord> {
        Map::new(|k: Seq<char>| lookup(self.records@, k) is Some, |k: Seq<char>| lookup(self.records@, k)->0)
    }
}

impl FileCache {
    /// An empty cache.
    pub fn new() -> (r: FileCache)
        ensures
            r@ == Map::<Seq<char>, CacheRecord>::empty(),
    {
        let r = FileCache { records: Vec::new() };
        assert(r@ =~= Map::<Seq<char>, CacheRecord>::empty());
        r
    }

    /// Records `info` for `path`, replacing what was recorded for it before.
    pub fn insert(&mut self, path: String, info: CachedFileInfo)
        ensures
            final(self)@ == old(self)@.insert(path@, (info.hash@, info.last_modified)),
    {
        let ghost k = path@;
        let ghost v = (info.hash@, info.last_modified);
        self.records.push((path, info));
        proof {
            let s = self.records@;
            assert(s.drop_last() =~= old(self).records@);
            assert(self@ =~= old(self)@.insert(k, v)) by {
                assert forall|q: Seq<char>| lookup(s, q) == (if q == k { Some(v) } else {
                    lookup(old(self).records@, q)
                }) by {}
            }
        }
    }

    /// The digest and modification time recorded for `path`, if any.
    pub fn get(&self, path: &str) -> (r: Option<&CachedFileInfo>)
        ensures
            r matches Some(info) ==> self@.contains_key(path@) && self@[path@] == (
                info.hash@,
                info.last_modified,
            ),
            r is None ==> !self@.contains_key(path@),
    {
        let mut i: usize = self.records.len();
        assert(self.records@.take(i as int) =~= self.records@);
        while i > 0
            invariant
                0 <= i <= self.records@.len(),
                lookup(self.records@, path@) == lookup(self.records@.take(i as int), path@),
            decreases i,
        {
            let ghost t = self.records@.take(i as int);
            assert(t.drop_last() =~= self.records@.take(i as int - 1));
            assert(t.last() == self.records@[i as int - 1]);
            if str_eq(self.records[i - 1].0.as_str(), path) {
                return Some(&self.records[i - 1].1);
            }
            i = i - 1;
        }
        None
    }

    /// The records to persist, each path with what was last recorded for it;
    /// later records of a path come after earlier ones.
    pub fn records(&self) -> (r: &Vec<(String, CachedFileInfo)>)
        ensures
            forall|k: Seq<char>| #[trigger] lookup(r@, k) is Some == self@.contains_key(k),
            forall|k: Seq<char>| self@.contains_key(k) ==> #[trigger] lookup(r@, k)->0 == self@[k],
    {
        &self.records
    }
}

} // verus!
