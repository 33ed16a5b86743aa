//! The manifest diff engine: which entries of a server manifest must be
//! downloaded, given what is on disk and what the cache remembers.
//!
//! The caller reads file metadata and digests. It asks `check_entry` about
//! each entry and hashes the local file only when told to; `diff_files`
//! decides every entry of the pass.

use vstd::prelude::*;

use crate::cache::{CacheRecord, CachedFileInfo, FileCache, ModTime};
use crate::manifest::{infos_view, FileInfo, FileInfoView};

verus! {

/// What the filesystem says of the local copy of an entry.
#[derive(PartialEq, Eq, Structural, Clone, Copy, Debug)]
pub enum LocalFile {
    /// No file at the entry's path.
    Missing,
    /// The file exists but its metadata could not be read.
    Unreadable,
    /// The file's size, and its modification time where the platform gives one.
    Present { size: u64, modified: Option<ModTime> },
}

/// The decision for one entry before any hashing.
#[derive(PartialEq, Eq, Structural, Clone, Copy, Debug)]
pub enum Verdict {
    /// The entry must be downloaded.
    Required,
    /// The cache vouches for the local file; it is not hashed.
    UpToDate,
    /// Only the local file's digest can decide.
    HashNeeded,
}

/// The cache's record for a key, if any.
pub open spec fn at(cache: Map<Seq<char>, CacheRecord>, key: Seq<char>) -> Option<CacheRecord> {
    if cache.contains_key(key) {
        Some(cache[key])
    } else {
        None
    }
}

/// The decision before hashing: a missing or unreadable file, or one of the
/// wrong size, is required; a file whose cache record holds its current
/// modification time and the server's digest is up to date; otherwise the
/// file must be hashed.
pub open spec fn verdict_of(e: FileInfoView, local: LocalFile, cache: Map<Seq<char>, CacheRecord>) -> Verdict {
    match local {
        LocalFile::Present { size, modified } => {
            if size != e.size {
                Verdict::Required
            } else if modified is Some && at(cache, e.path) == Some((e.hash, modified->0)) {
                Verdict::UpToDate
            } else {
                Verdict::HashNeeded
            }
        },
        _ => Verdict::Required,
    }
}

/// Whether the entry must be downloaded, given the local file's digest where
/// one was computed (`None`: it could not be read).
pub open spec fn entry_required(
    e: FileInfoView,
    local: LocalFile,
    cache: Map<Seq<char>, CacheRecord>,
    hash: Option<Seq<char>>,
) -> bool {
    required_given(verdict_of(e, local, cache), e.hash, hash)
}

/// Whether an entry with server digest `server_hash` is required, given the
/// decision before hashing and the local digest where one was computed.
pub open spec fn required_given(v: Verdict, server_hash: Seq<char>, hash: Option<Seq<char>>) -> bool {
    match v {
        Verdict::Required => true,
        Verdict::UpToDate => false,
        Verdict::HashNeeded => match hash {
            Some(h) => h != server_hash,
            None => true,
        },
    }
}

/// Whether `entry` is required, given the decision before hashing and the local
/// digest where one was computed (`None`: hashing failed or was not done).
pub fn decide(entry: &FileInfo, verdict: Verdict, hash: &Option<String>) -> (r: bool)
    ensures
        r == required_given(
            verdict,
            entry.hash@,
            match hash {
                Some(h) => Some(h@),
                None => None,
            },
        ),
{
    match verdict {
        Verdict::Required => true,
        Verdict::UpToDate => false,
        Verdict::HashNeeded => match hash {
            Some(h) => !(*h == entry.hash),
            None => true,
        },
    }
}

/// The cache record that deciding an entry writes: the computed digest with the
/// file's modification time, whenever the file was hashed and has one.
pub open spec fn cache_update(
    e: FileInfoView,
    local: LocalFile,
    cache: Map<Seq<char>, CacheRecord>,
    hash: Option<Seq<char>>,
) -> Option<CacheRecord> {
    match (verdict_of(e, local, cache), hash, local) {
        (Verdict::HashNeeded, Some(h), LocalFile::Present { modified: Some(t), .. }) => Some((h, t)),
        _ => None,
    }
}

/// The digests handed in, as character sequences.
pub open spec fn hashes_view(hashes: Seq<Option<String>>) -> Seq<Option<Seq<char>>> {
    hashes.map_values(|h: Option<String>| match h {
        Some(s) => Some(s@),
        None => None,
    })
}

/// The entries among the first `n` that must be downloaded, in manifest order;
/// every decision is made against the cache as it was before the pass.
pub open spec fn required_upto(
    entries: Seq<FileInfoView>,
    locals: Seq<LocalFile>,
    hashes: Seq<Option<Seq<char>>>,
    cache: Map<Seq<char>, CacheRecord>,
    n: nat,
) -> Seq<FileInfoView>
    decreases n,
{
    if n == 0 {
        Seq::empty()
    } else {
        let i = n - 1;
        let rest = required_upto(entries, locals, hashes, cache, (n - 1) as nat);
        if entry_required(entries[i], locals[i], cache, hashes[i]) {
            rest.push(entries[i])
        } else {
            rest
        }
    }
}

/// The cache after deciding the first `n` entries against `cache`.
pub open spec fn cache_upto(
    entries: Seq<FileInfoView>,
    locals: Seq<LocalFile>,
    hashes: Seq<Option<Seq<char>>>,
    cache: Map<Seq<char>, CacheRecord>,
    n: nat,
) -> Map<Seq<char>, CacheRecord>
    decreases n,
{
    if n == 0 {
        cache
    } else {
        let i = n - 1;
        let rest = cache_upto(entries, locals, hashes, cache, (n - 1) as nat);
        match cache_update(entries[i], locals[i], cache, hashes[i]) {
            Some(v) => rest.insert(entries[i].path, v),
            None => rest,
        }
    }
}

/// The decision for one entry before hashing.
pub fn check_entry(entry: &FileInfo, local: &LocalFile, cache: &FileCache) -> (r: Verdict)
    ensures
        r == verdict_of(entry@, *local, cache@),
{
    match local {
        LocalFile::Present { size, modified } => {
            if *size != entry.size {
                return Verdict::Required;
            }
            match modified {
                Some(t) => match cache.get(entry.path.as_str()) {
                    Some(info) => {
                        if info.last_modified == *t && info.hash == entry.hash {
                            Verdict::UpToDate
                        } else {
                            Verdict::HashNeeded
                        }
                    },
                    None => Verdict::HashNeeded,
                },
                None => Verdict::HashNeeded,
            }
        },
        _ => Verdict::Required,
    }
}

/// One diff pass. `locals[i]` is what the filesystem says of `entries[i]`, and
/// `hashes[i]` the digest of its local file where [`check_entry`] asked for one
/// (`None` where hashing failed; ignored elsewhere). Returns the entries to
/// download, in manifest order, and the cache with a record for every file that
/// was hashed and has a modification time.
pub fn diff_files(
    entries: &Vec<FileInfo>,
    locals: &Vec<LocalFile>,
    hashes: &Vec<Option<String>>,
    cache: FileCache,
) -> (r: (Vec<FileInfo>, FileCache))
    requires
        locals@.len() == entries@.len(),
        hashes@.len() == entries@.len(),
    ensures
        infos_view(r.0@) == required_upto(
            infos_view(entries@),
            locals@,
            hashes_view(hashes@),
            cache@,
            entries@.len() as nat,
        ),
        r.1@ == cache_upto(
            infos_view(entries@),
            locals@,
            hashes_view(hashes@),
            cache@,
            entries@.len() as nat,
        ),
{
    let ghost ev = infos_view(entries@);
    let ghost hv = hashes_view(hashes@);
    let ghost c0 = cache@;
    let mut required: Vec<FileInfo> = Vec::new();
    let mut verdicts: Vec<Verdict> = Vec::new();
    let mut i: usize = 0;
    while i < entries.len()
        invariant
            0 <= i <= entries@.len(),
            locals@.len() == entries@.len(),
            hashes@.len() == entries@.len(),
            ev == infos_view(entries@),
            hv == hashes_view(hashes@),
            c0 == cache@,
            verdicts@.len() == i,
            forall|j: int| 0 <= j < i ==> verdicts@[j] == verdict_of(ev[j], locals@[j], c0),
            infos_view(required@) == required_upto(ev, locals@, hv, c0, i as nat),
        decreases entries@.len() - i,
    {
        let v = check_entry(&entries[i], &locals[i], &cache);
        let needed = decide(&entries[i], v, &hashes[i]);
        assert(needed == entry_required(ev[i as int], locals@[i as int], c0, hv[i as int]));
        if needed {
            required.push(entries[i].duplicate());
            assert(infos_view(required@) =~= required_upto(ev, locals@, hv, c0, i as nat).push(
                ev[i as int],
            ));
        }
        verdicts.push(v);
        i = i + 1;
    }
    let mut cache = cache;
    let mut i: usize = 0;
    while i < entries.len()
        invariant
            0 <= i <= entries@.len(),
            locals@.len() == entries@.len(),
            hashes@.len() == entries@.len(),
            ev == infos_view(entries@),
            hv == hashes_view(hashes@),
            verdicts@.len() == entries@.len(),
            forall|j: int| 0 <= j < entries@.len() ==> verdicts@[j] == verdict_of(ev[j], locals@[j], c0),
            cache@ == cache_upto(ev, locals@, hv, c0, i as nat),
        decreases entries@.len() - i,
    {
        if verdicts[i] == Verdict::HashNeeded {
            match (&hashes[i], &locals[i]) {
                (Some(h), LocalFile::Present { modified: Some(t), .. }) => {
                    cache.insert(
                        entries[i].path.clone(),
                        CachedFileInfo { hash: h.clone(), last_modified: *t },
                    );
                },
                _ => {},
            }
        }
        i = i + 1;
    }
    (required, cache)
}

/// The number of entries whose local file is missing.
pub open spec fn count_missing(locals: Seq<LocalFile>) -> nat
    decreases locals.len(),
{
    if locals.len() == 0 {
        0
    } else {
        count_missing(locals.drop_last()) + if locals.last() is Missing {
            1nat
        } else {
            0nat
        }
    }
}

/// A local file of the wrong size is required whatever its digest would be,
/// so it is never hashed.
pub proof fn lemma_size_mismatch_required(
    e: FileInfoView,
    local: LocalFile,
    cache: Map<Seq<char>, CacheRecord>,
)
    requires
        local matches LocalFile::Present { size, .. } && size != e.size,
    ensures
        verdict_of(e, local, cache) == Verdict::Required,
        forall|h: Option<Seq<char>>| #[trigger] entry_required(e, local, cache, h),
        forall|h: Option<Seq<char>>| #[trigger] cache_update(e, local, cache, h) is None,
{
}

/// A file whose cache record holds its current modification time and the
/// server's digest is trusted: it is not hashed, not required, and its record
/// is left as it is.
pub proof fn lemma_cache_trusted(
    e: FileInfoView,
    local: LocalFile,
    cache: Map<Seq<char>, CacheRecord>,
    t: ModTime,
)
    requires
        local == (LocalFile::Present { size: e.size, modified: Some(t) }),
        cache.contains_key(e.path),
        cache[e.path] == (e.hash, t),
    ensures
        verdict_of(e, local, cache) == Verdict::UpToDate,
        forall|h: Option<Seq<char>>| !#[trigger] entry_required(e, local, cache, h),
        forall|h: Option<Seq<char>>| #[trigger] cache_update(e, local, cache, h) is None,
{
}

/// Every entry whose local file is missing is in the required set, with the
/// size the server declared, so the set holds at least as many entries as
/// there are missing files.
pub proof fn lemma_missing_required(
    entries: Seq<FileInfoView>,
    locals: Seq<LocalFile>,
    hashes: Seq<Option<Seq<char>>>,
    cache: Map<Seq<char>, CacheRecord>,
    n: nat,
)
    requires
        n <= entries.len(),
        locals.len() == entries.len(),
        hashes.len() == entries.len(),
    ensures
        forall|i: int|
            0 <= i < n && locals[i] is Missing ==> required_upto(
                entries,
                locals,
                hashes,
                cache,
                n,
            ).contains(#[trigger] entries[i]),
        required_upto(entries, locals, hashes, cache, n).len() >= count_missing(locals.take(n as int)),
    decreases n,
{
    if n > 0 {
        let m = (n - 1) as nat;
        lemma_missing_required(entries, locals, hashes, cache, m);
        let prev = required_upto(entries, locals, hashes, cache, m);
        let cur = required_upto(entries, locals, hashes, cache, n);
        assert(locals.take(n as int).drop_last() =~= locals.take(m as int));
        assert(locals.take(n as int).last() == locals[m as int]);
        assert forall|i: int| 0 <= i < n && locals[i] is Missing implies cur.contains(
            #[trigger] entries[i],
        ) by {
            if i < m {
                assert(prev.contains(entries[i]));
                let k = choose|k: int| 0 <= k < prev.len() && prev[k] == entries[i];
                if cur != prev {
                    assert(cur == prev.push(entries[m as int]));
                    assert(cur[k] == entries[i]);
                }
            } else {
                assert(cur == prev.push(entries[m as int]));
                assert(cur[prev.len() as int] == entries[i]);
            }
        }
    }
}

/// `e` is one of the first `n` entries, and one that is required.
pub open spec fn required_among(
    entries: Seq<FileInfoView>,
    locals: Seq<LocalFile>,
    hashes: Seq<Option<Seq<char>>>,
    cache: Map<Seq<char>, CacheRecord>,
    n: nat,
    e: FileInfoView,
) -> bool {
    exists|j: int|
        0 <= j < n && e == #[trigger] entries[j] && entry_required(
            entries[j],
            locals[j],
            cache,
            hashes[j],
        )
}

/// Every entry of the required set is one of the first `n` entries, and one
/// that is required.
pub proof fn lemma_required_from_entries(
    entries: Seq<FileInfoView>,
    locals: Seq<LocalFile>,
    hashes: Seq<Option<Seq<char>>>,
    cache: Map<Seq<char>, CacheRecord>,
    n: nat,
)
    requires
        n <= entries.len(),
    ensures
        forall|k: int|
            0 <= k < required_upto(entries, locals, hashes, cache, n).len() ==> required_among(
                entries,
                locals,
                hashes,
                cache,
                n,
                #[trigger] required_upto(entries, locals, hashes, cache, n)[k],
            ),
    decreases n,
{
    if n > 0 {
        let m = (n - 1) as nat;
        lemma_required_from_entries(entries, locals, hashes, cache, m);
        let prev = required_upto(entries, locals, hashes, cache, m);
        let cur = required_upto(entries, locals, hashes, cache, n);
        assert forall|k: int| 0 <= k < cur.len() implies required_among(
            entries,
            locals,
            hashes,
            cache,
            n,
            #[trigger] cur[k],
        ) by {
            if k < prev.len() {
                assert(cur[k] == prev[k]);
                let j = choose|j: int|
                    0 <= j < m && prev[k] == entries[j] && entry_required(
                        entries[j],
                        locals[j],
                        cache,
                        hashes[j],
                    );
                assert(cur[k] == entries[j]);
            } else {
                assert(cur[k] == entries[m as int]);
                assert(entry_required(entries[m as int], locals[m as int], cache, hashes[m as int]));
            }
        }
    }
}

/// Where no two entries share a path, neither do two entries of the required
/// set; with `lemma_missing_required`, each missing file's entry is in it
/// exactly once.
pub proof fn lemma_required_paths_unique(
    entries: Seq<FileInfoView>,
    locals: Seq<LocalFile>,
    hashes: Seq<Option<Seq<char>>>,
    cache: Map<Seq<char>, CacheRecord>,
    n: nat,
)
    requires
        n <= entries.len(),
        forall|a: int, b: int|
            0 <= a < entries.len() && 0 <= b < entries.len() && a != b ==> (#[trigger] entries[a]).path
                != (#[trigger] entries[b]).path,
    ensures
        ({
            let r = required_upto(entries, locals, hashes, cache, n);
            forall|k1: int, k2: int|
                0 <= k1 < r.len() && 0 <= k2 < r.len() && k1 != k2 ==> (#[trigger] r[k1]).path
                    != (#[trigger] r[k2]).path
        }),
    decreases n,
{
    if n > 0 {
        let m = (n - 1) as nat;
        lemma_required_paths_unique(entries, locals, hashes, cache, m);
        lemma_required_from_entries(entries, locals, hashes, cache, m);
        let prev = required_upto(entries, locals, hashes, cache, m);
        let cur = required_upto(entries, locals, hashes, cache, n);
        if cur != prev {
            assert forall|k1: int, k2: int|
                0 <= k1 < cur.len() && 0 <= k2 < cur.len() && k1 != k2 implies (#[trigger] cur[k1]).path
                != (#[trigger] cur[k2]).path by {
                if k1 < prev.len() && k2 < prev.len() {
                    assert(cur[k1] == prev[k1] && cur[k2] == prev[k2]);
                } else if k1 < prev.len() {
                    let j = choose|j: int|
                        0 <= j < m && prev[k1] == entries[j] && entry_required(
                            entries[j],
                            locals[j],
                            cache,
                            hashes[j],
                        );
                    assert(cur[k1] == entries[j]);
                    assert(cur[k2] == entries[m as int]);
                } else {
                    let j = choose|j: int|
                        0 <= j < m && prev[k2] == entries[j] && entry_required(
                            entries[j],
                            locals[j],
                            cache,
                            hashes[j],
                        );
                    assert(cur[k2] == entries[j]);
                    assert(cur[k1] == entries[m as int]);
                }
            }
        }
    }
}

/// Every entry among the first `n` that is required is in the required set.
pub proof fn lemma_required_contains(
    entries: Seq<FileInfoView>,
    locals: Seq<LocalFile>,
    hashes: Seq<Option<Seq<char>>>,
    cache: Map<Seq<char>, CacheRecord>,
    n: nat,
    i: int,
)
    requires
        n <= entries.len(),
        0 <= i < n,
        entry_required(entries[i], locals[i], cache, hashes[i]),
    ensures
        required_upto(entries, locals, hashes, cache, n).contains(entries[i]),
    decreases n,
{
    let m = (n - 1) as nat;
    let prev = required_upto(entries, locals, hashes, cache, m);
    let cur = required_upto(entries, locals, hashes, cache, n);
    if i < m {
        lemma_required_contains(entries, locals, hashes, cache, m, i);
        let k = choose|k: int| 0 <= k < prev.len() && prev[k] == entries[i];
        if cur != prev {
            assert(cur[k] == entries[i]);
        }
    } else {
        assert(cur[prev.len() as int] == entries[i]);
    }
}

/// In a pass over a manifest with unique paths, a local file of the wrong size
/// is decided without a digest, its entry is required, and its cache record is
/// left as it was.
pub proof fn lemma_size_mismatch_in_pass(
    entries: Seq<FileInfoView>,
    locals: Seq<LocalFile>,
    hashes: Seq<Option<Seq<char>>>,
    cache: Map<Seq<char>, CacheRecord>,
    i: int,
)
    requires
        locals.len() == entries.len(),
        hashes.len() == entries.len(),
        0 <= i < entries.len(),
        locals[i] matches LocalFile::Present { size, .. } && size != entries[i].size,
        forall|a: int, b: int|
            0 <= a < entries.len() && 0 <= b < entries.len() && a != b ==> (#[trigger] entries[a]).path
                != (#[trigger] entries[b]).path,
    ensures
        verdict_of(entries[i], locals[i], cache) == Verdict::Required,
        required_upto(entries, locals, hashes, cache, entries.len() as nat).contains(entries[i]),
        at(cache_upto(entries, locals, hashes, cache, entries.len() as nat), entries[i].path) == at(
            cache,
            entries[i].path,
        ),
{
    let n = entries.len() as nat;
    lemma_required_contains(entries, locals, hashes, cache, n, i);
    lemma_cache_upto_at(entries, locals, hashes, cache, n, i);
}

/// In a pass over a manifest with unique paths, a file whose cache record holds
/// its current modification time and the server's digest is decided without a
/// digest, no entry of the required set has its path, and its cache record is
/// left as it was.
pub proof fn lemma_cache_hit_in_pass(
    entries: Seq<FileInfoView>,
    locals: Seq<LocalFile>,
    hashes: Seq<Option<Seq<char>>>,
    cache: Map<Seq<char>, CacheRecord>,
    i: int,
    t: ModTime,
)
    requires
        locals.len() == entries.len(),
        hashes.len() == entries.len(),
        0 <= i < entries.len(),
        locals[i] == (LocalFile::Present { size: entries[i].size, modified: Some(t) }),
        at(cache, entries[i].path) == Some((entries[i].hash, t)),
        forall|a: int, b: int|
            0 <= a < entries.len() && 0 <= b < entries.len() && a != b ==> (#[trigger] entries[a]).path
                != (#[trigger] entries[b]).path,
    ensures
        verdict_of(entries[i], locals[i], cache) == Verdict::UpToDate,
        forall|k: int|
            0 <= k < required_upto(entries, locals, hashes, cache, entries.len() as nat).len()
                ==> (#[trigger] required_upto(entries, locals, hashes, cache, entries.len() as nat)[k]).path
                != entries[i].path,
        at(cache_upto(entries, locals, hashes, cache, entries.len() as nat), entries[i].path) == at(
            cache,
            entries[i].path,
        ),
{
    let n = entries.len() as nat;
    let r = required_upto(entries, locals, hashes, cache, n);
    lemma_required_from_entries(entries, locals, hashes, cache, n);
    lemma_cache_upto_at(entries, locals, hashes, cache, n, i);
    assert forall|k: int| 0 <= k < r.len() implies (#[trigger] r[k]).path != entries[i].path by {
        let j = choose|j: int|
            0 <= j < n && r[k] == entries[j] && entry_required(entries[j], locals[j], cache, hashes[j]);
        if j != i {
            assert(entries[j].path != entries[i].path);
        }
    }
}

/// The record that the cache holds for the path of entry `i` after deciding the
/// first `n` entries, where no two entries share a path.
pub proof fn lemma_cache_upto_at(
    entries: Seq<FileInfoView>,
    locals: Seq<LocalFile>,
    hashes: Seq<Option<Seq<char>>>,
    cache: Map<Seq<char>, CacheRecord>,
    n: nat,
    i: int,
)
    requires
        n <= entries.len(),
        0 <= i < entries.len(),
        forall|a: int, b: int|
            0 <= a < entries.len() && 0 <= b < entries.len() && a != b ==> (#[trigger] entries[a]).path
                != (#[trigger] entries[b]).path,
    ensures
        at(cache_upto(entries, locals, hashes, cache, n), entries[i].path) == if i < n
            && cache_update(entries[i], locals[i], cache, hashes[i]) is Some {
            cache_update(entries[i], locals[i], cache, hashes[i])
        } else {
            at(cache, entries[i].path)
        },
    decreases n,
{
    if n > 0 {
        let m = (n - 1) as nat;
        lemma_cache_upto_at(entries, locals, hashes, cache, m, i);
        if m as int != i {
            assert(entries[m as int].path != entries[i].path);
        }
    }
}

/// Running the diff a second time, with nothing on disk changed and the cache
/// that the first pass left, gives the same required set; in particular it is
/// empty on the second pass when it was empty on the first. A file that the
/// first pass hashed, found current and recorded is not hashed again. Entry
/// paths are unique within a manifest.
pub proof fn lemma_diff_idempotent(
    entries: Seq<FileInfoView>,
    locals: Seq<LocalFile>,
    hashes: Seq<Option<Seq<char>>>,
    cache: Map<Seq<char>, CacheRecord>,
)
    requires
        locals.len() == entries.len(),
        hashes.len() == entries.len(),
        forall|a: int, b: int|
            0 <= a < entries.len() && 0 <= b < entries.len() && a != b ==> (#[trigger] entries[a]).path
                != (#[trigger] entries[b]).path,
    ensures
        ({
            let n = entries.len() as nat;
            let after = cache_upto(entries, locals, hashes, cache, n);
            &&& required_upto(entries, locals, hashes, after, n) == required_upto(
                entries,
                locals,
                hashes,
                cache,
                n,
            )
            &&& required_upto(entries, locals, hashes, cache, n).len() == 0 ==> required_upto(
                entries,
                locals,
                hashes,
                after,
                n,
            ).len() == 0
            &&& forall|i: int|
                0 <= i < entries.len() && cache_update(entries[i], locals[i], cache, hashes[i]) is Some
                    && !entry_required(entries[i], locals[i], cache, hashes[i]) ==> verdict_of(
                    #[trigger] entries[i],
                    locals[i],
                    after,
                ) == Verdict::UpToDate
        }),
{
    let n = entries.len() as nat;
    let after = cache_upto(entries, locals, hashes, cache, n);
    lemma_same_decisions(entries, locals, hashes, cache, after, n);
    assert forall|i: int|
        0 <= i < entries.len() && cache_update(entries[i], locals[i], cache, hashes[i]) is Some
            && !entry_required(entries[i], locals[i], cache, hashes[i]) implies verdict_of(
            #[trigger] entries[i],
            locals[i],
            after,
        ) == Verdict::UpToDate by {
        lemma_cache_upto_at(entries, locals, hashes, cache, n, i);
    }
}

proof fn lemma_same_decisions(
    entries: Seq<FileInfoView>,
    locals: Seq<LocalFile>,
    hashes: Seq<Option<Seq<char>>>,
    cache: Map<Seq<char>, CacheRecord>,
    after: Map<Seq<char>, CacheRecord>,
    k: nat,
)
    requires
        k <= entries.len(),
        locals.len() == entries.len(),
        hashes.len() == entries.len(),
        after == cache_upto(entries, locals, hashes, cache, entries.len() as nat),
        forall|a: int, b: int|
            0 <= a < entries.len() && 0 <= b < entries.len() && a != b ==> (#[trigger] entries[a]).path
                != (#[trigger] entries[b]).path,
    ensures
        required_upto(entries, locals, hashes, after, k) == required_upto(
            entries,
            locals,
            hashes,
            cache,
            k,
        ),
    decreases k,
{
    if k > 0 {
        let i = k - 1;
        lemma_same_decisions(entries, locals, hashes, cache, after, (k - 1) as nat);
        lemma_cache_upto_at(entries, locals, hashes, cache, entries.len() as nat, i);
        assert(entry_required(entries[i], locals[i], after, hashes[i]) == entry_required(
            entries[i],
            locals[i],
            cache,
            hashes[i],
        ));
    }
}

/// Progress of a diff pass is reported every this many entries, and on the last.
pub const CHECK_PROGRESS_EVERY: usize = 50;

/// Whether a progress event is due after `processed` of `total` entries.
pub fn check_progress_due(processed: usize, total: usize) -> (r: bool)
    ensures
        r == (processed % CHECK_PROGRESS_EVERY == 0 || processed == total),
{
    processed % CHECK_PROGRESS_EVERY == 0 || processed == total
}

} // verus!
