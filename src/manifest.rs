//! Manifest entries: the files that a server expects, and how a manifest is
//! built from decoded JSON fields or from a scan of the install root.

use vstd::prelude::*;

use crate::text::owned;

verus! {

/// One file of a manifest: its path relative to the install root (with `/`
/// separators), its content digest, its size in bytes and where to fetch it.
#[derive(Debug)]
pub struct FileInfo {
    pub path: String,
    pub hash: String,
    pub size: u64,
    pub url: String,
}

impl FileInfo {
    /// A field-by-field copy.
    pub fn duplicate(&self) -> (r: FileInfo)
        ensures
            r == *self,
    {
        FileInfo {
            path: self.path.clone(),
            hash: self.hash.clone(),
            size: self.size,
            url: self.url.clone(),
        }
    }
}

/// The fields of one element of a server manifest's `files` array, as decoded;
/// a field is `None` where it is missing or has the wrong JSON type.
#[derive(Debug)]
pub struct RawEntry {
    pub path: Option<String>,
    pub hash: Option<String>,
    pub size: Option<u64>,
    pub url: Option<String>,
}

/// The abstract value of a manifest entry.
pub struct FileInfoView {
    pub path: Seq<char>,
    pub hash: Seq<char>,
    pub size: u64,
    pub url: Seq<char>,
}

impl View for FileInfo {
    type V = FileInfoView;

    open spec fn view(&self) -> FileInfoView {
        FileInfoView { path: self.path@, hash: self.hash@, size: self.size, url: self.url@ }
    }
}

/// The views of a list of entries.
pub open spec fn infos_view(s: Seq<FileInfo>) -> Seq<FileInfoView> {
    s.map_values(|f: FileInfo| f@)
}

/// The entry an element stands for: `None` where its path, hash or size is
/// missing; a missing URL is empty.
pub open spec fn entry_of(raw: RawEntry) -> Option<FileInfoView> {
    if raw.path is Some && raw.hash is Some && raw.size is Some {
        Some(
            FileInfoView {
                path: raw.path->0@,
                hash: raw.hash->0@,
                size: raw.size->0,
                url: match raw.url {
                    Some(u) => u@,
                    None => Seq::empty(),
                },
            },
        )
    } else {
        None
    }
}

/// The entries of a decoded manifest, in order, each element that lacks a
/// path, a hash or a size skipped.
pub open spec fn entries_of(raws: Seq<RawEntry>) -> Seq<FileInfoView>
    decreases raws.len(),
{
    if raws.len() == 0 {
        Seq::empty()
    } else {
        let rest = entries_of(raws.drop_last());
        match entry_of(raws.last()) {
            Some(e) => rest.push(e),
            None => rest,
        }
    }
}

/// The entry that one decoded element stands for, or `None` where it lacks
/// a path, a hash or a size.
pub fn entry_from_fields(raw: &RawEntry) -> (r: Option<FileInfo>)
    ensures
        r matches Some(e) ==> entry_of(*raw) == Some(e@),
        r is None ==> entry_of(*raw) is None,
{
    match (&raw.path, &raw.hash, raw.size) {
        (Some(p), Some(h), Some(size)) => {
            let url = match &raw.url {
                Some(u) => u.clone(),
                None => String::new(),
            };
            Some(FileInfo { path: p.clone(), hash: h.clone(), size, url })
        },
        _ => None,
    }
}

/// The entries of a decoded server manifest, in order; elements without a
/// path, a hash or a size are skipped.
pub fn entries_from_fields(raws: &Vec<RawEntry>) -> (r: Vec<FileInfo>)
    ensures
        infos_view(r@) == entries_of(raws@),
{
    let mut out: Vec<FileInfo> = Vec::new();
    let mut i: usize = 0;
    while i < raws.len()
        invariant
            0 <= i <= raws@.len(),
            infos_view(out@) == entries_of(raws@.take(i as int)),
        decreases raws@.len() - i,
    {
        proof {
            assert(raws@.take(i as int + 1).drop_last() =~= raws@.take(i as int));
            assert(raws@.take(i as int + 1).last() == raws@[i as int]);
        }
        match entry_from_fields(&raws[i]) {
            Some(e) => {
                out.push(e);
                assert(infos_view(out@) =~= entries_of(raws@.take(i as int)).push(e@));
            },
            None => {},
        }
        i = i + 1;
    }
    assert(raws@.take(raws@.len() as int) =~= raws@);
    out
}

/// The download URL of a file under a file server: `<server>/files/<relative path>`.
pub open spec fn download_url(server: Seq<char>, relative: Seq<char>) -> Seq<char> {
    server + "/files/"@ + relative
}

/// The manifest entry that a scan writes for one file.
pub fn manifest_entry(file_server_url: &str, relative: &str, hash: String, size: u64) -> (r:
    FileInfo)
    ensures
        r@ == (FileInfoView {
            path: relative@,
            hash: hash@,
            size,
            url: download_url(file_server_url@, relative@),
        }),
{
    let mut url = owned(file_server_url);
    url.append("/files/");
    url.append(relative);
    FileInfo { path: owned(relative), hash, size, url }
}

/// The sum of the declared sizes of a list of entries.
pub open spec fn size_sum(files: Seq<FileInfoView>) -> int
    decreases files.len(),
{
    if files.len() == 0 {
        0
    } else {
        size_sum(files.drop_last()) + files.last().size
    }
}

/// The total declared size of a list of entries, or `None` where it does not
/// fit in 64 bits.
pub fn total_size(files: &Vec<FileInfo>) -> (r: Option<u64>)
    ensures
        r matches Some(t) ==> t == size_sum(infos_view(files@)),
        r is None ==> size_sum(infos_view(files@)) > u64::MAX,
{
    let mut total: u64 = 0;
    let mut i: usize = 0;
    while i < files.len()
        invariant
            0 <= i <= files@.len(),
            total == size_sum(infos_view(files@).take(i as int)),
        decreases files@.len() - i,
    {
        proof {
            let v = infos_view(files@);
            assert(v.take(i as int + 1).drop_last() =~= v.take(i as int));
            assert(v.take(i as int + 1).last() == files@[i as int]@);
        }
        if files[i].size > u64::MAX - total {
            proof {
                lemma_size_sum_prefix(infos_view(files@), i as int + 1);
            }
            return None;
        }
        total = total + files[i].size;
        i = i + 1;
    }
    assert(infos_view(files@).take(files@.len() as int) =~= infos_view(files@));
    Some(total)
}

/// The sum over a prefix is at most the sum over the whole list.
pub proof fn lemma_size_sum_prefix(files: Seq<FileInfoView>, n: int)
    requires
        0 <= n <= files.len(),
    ensures
        size_sum(files.take(n)) <= size_sum(files),
    decreases files.len(),
{
    if n < files.len() {
        assert(files.drop_last().take(n) =~= files.take(n));
        lemma_size_sum_prefix(files.drop_last(), n);
    } else {
        assert(files.take(n) =~= files);
    }
}

} // verus!
