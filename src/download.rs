//! The download pipeline: files are fetched one after another; each is
//! streamed to disk, reported on, and hashed again before it is accepted.
//!
//! The caller performs the transfers and hands every event to a
//! [`DownloadBatch`], which decides what follows: whether the response is
//! accepted, when progress is reported, and whether the written file passes.
//! The first failure ends the batch.

use vstd::prelude::*;

use crate::manifest::{infos_view, lemma_size_sum_prefix, size_sum, FileInfo, FileInfoView};

verus! {

/// Why one file, and with it the batch, failed.
#[derive(Debug)]
pub enum DownloadError {
    /// The server answered with a status outside 200..=299.
    HttpStatus { path: String, status: u16 },
    /// The connection failed or the body stream broke off.
    Transport { path: String, message: String },
    /// The bytes written to disk do not have the digest that the manifest gives.
    Integrity { path: String, expected: String, actual: String },
    /// The file could not be created, written or read back.
    Io { path: String, message: String },
}

/// One progress event of a batch.
#[derive(Debug)]
pub struct DownloadProgress {
    /// The relative path of the file being fetched.
    pub file_name: String,
    /// Bytes of this file received so far.
    pub file_bytes: u64,
    /// Bytes received so far over the whole batch, capped at `total_bytes`
    /// (a server may send more than a file's declared size).
    pub downloaded_bytes: u64,
    /// Declared size of the whole batch.
    pub total_bytes: u64,
    /// Number of files in the batch.
    pub total_files: usize,
    /// Position of the current file, counting from 1.
    pub current_file_index: usize,
    /// Milliseconds since this file's transfer began.
    pub elapsed_ms: u64,
}

/// Progress of one file is reported at most once per this many milliseconds,
/// and when the file is complete.
pub const PROGRESS_INTERVAL_MS: u64 = 100;

/// Whether an HTTP status code means success.
pub open spec fn status_ok(status: u16) -> bool {
    200 <= status <= 299
}

/// Whether an HTTP status code means success (200 to 299).
pub fn is_success(status: u16) -> (r: bool)
    ensures
        r == status_ok(status),
{
    200 <= status && status <= 299
}

/// The sum of a sequence of byte counts.
pub open spec fn sum_counts(s: Seq<u64>) -> int
    decreases s.len(),
{
    if s.len() == 0 {
        0
    } else {
        sum_counts(s.drop_last()) + s.last()
    }
}

/// A batch of downloads, in order.
pub struct DownloadBatch {
    files: Vec<FileInfo>,
    total_bytes: u64,
    index: usize,
    accumulated: u64,
    current: u64,
    expected_current: u64,
    last_report_ms: u64,
    in_file: bool,
    failed: bool,
    sizes: Vec<u64>,
    reported: Ghost<Seq<u64>>,
}

impl DownloadBatch {
    /// The files of the batch.
    pub closed spec fn files_spec(&self) -> Seq<FileInfoView> {
        infos_view(self.files@)
    }

    /// The declared size of the whole batch.
    pub closed spec fn total_spec(&self) -> u64 {
        self.total_bytes
    }

    /// How many files have been downloaded and verified.
    pub closed spec fn done_count(&self) -> nat {
        self.index as nat
    }

    /// Whether a file's transfer is under way.
    pub closed spec fn transferring(&self) -> bool {
        self.in_file
    }

    /// Whether a file failed, which ends the batch.
    pub closed spec fn has_failed(&self) -> bool {
        self.failed
    }

    /// Bytes received for the current file.
    pub closed spec fn current_bytes(&self) -> u64 {
        self.current
    }

    /// The byte count at which the current file is complete: the length the
    /// server announced, or else the declared size.
    pub closed spec fn expected_bytes(&self) -> u64 {
        self.expected_current
    }

    /// When the last progress event of the current file was due, in
    /// milliseconds since its transfer began (0 before the first).
    pub closed spec fn last_report(&self) -> u64 {
        self.last_report_ms
    }

    /// Bytes received over the whole batch.
    pub closed spec fn received(&self) -> int {
        self.accumulated + self.current
    }

    /// The `downloaded_bytes` of every progress event so far, in order.
    pub closed spec fn reported(&self) -> Seq<u64> {
        self.reported@
    }

    /// The byte counts of the files verified so far, in order.
    pub closed spec fn sizes_spec(&self) -> Seq<u64> {
        self.sizes@
    }

    /// The file to fetch now: none once all are done or one has failed.
    pub open spec fn pending(&self) -> Option<FileInfoView> {
        if !self.has_failed() && self.done_count() < self.files_spec().len() {
            Some(self.files_spec()[self.done_count() as int])
        } else {
            None
        }
    }

    /// Whether a progress event is due after a chunk at `elapsed_ms` that
    /// brings the current file to `count` bytes.
    pub open spec fn event_due(&self, elapsed_ms: u64, count: u64) -> bool {
        (elapsed_ms >= self.last_report() && elapsed_ms - self.last_report() >= PROGRESS_INTERVAL_MS)
            || count == self.expected_bytes()
    }

    /// The batch's invariant.
    pub closed spec fn wf(&self) -> bool {
        &&& self.total_bytes == size_sum(infos_view(self.files@))
        &&& self.index <= self.files@.len()
        &&& self.in_file ==> self.index < self.files@.len() && !self.failed
        &&& !self.in_file && !self.failed ==> self.current == 0
        &&& self.failed ==> self.index < self.files@.len() && !self.in_file
        &&& self.accumulated + self.current <= u64::MAX
        &&& self.accumulated == sum_counts(self.sizes@)
        &&& self.sizes@.len() == self.index
        &&& forall|i: int, j: int|
            0 <= i < j < self.reported@.len() ==> self.reported@[i] <= self.reported@[j]
        &&& forall|i: int|
            0 <= i < self.reported@.len() ==> self.reported@[i] <= self.accumulated + self.current
        &&& forall|i: int| 0 <= i < self.reported@.len() ==> self.reported@[i] <= self.total_bytes
    }

    /// What a progress event reports as downloaded: the bytes received, capped
    /// at the batch's declared size.
    pub open spec fn reported_count(&self) -> u64 {
        if self.received() <= self.total_spec() {
            self.received() as u64
        } else {
            self.total_spec()
        }
    }

    /// A batch over `files`, whose declared sizes sum to at most `u64::MAX`.
    pub fn new(files: Vec<FileInfo>) -> (r: DownloadBatch)
        requires
            size_sum(infos_view(files@)) <= u64::MAX,
        ensures
            r.wf(),
            r.files_spec() == infos_view(files@),
            r.total_spec() == size_sum(infos_view(files@)),
            r.done_count() == 0,
            !r.transferring(),
            !r.has_failed(),
            r.received() == 0,
            r.reported() == Seq::<u64>::empty(),
            r.sizes_spec() == Seq::<u64>::empty(),
    {
        let mut total: u64 = 0;
        let mut i: usize = 0;
        while i < files.len()
            invariant
                0 <= i <= files@.len(),
                size_sum(infos_view(files@)) <= u64::MAX,
                total == size_sum(infos_view(files@).take(i as int)),
            decreases files@.len() - i,
        {
            proof {
                let v = infos_view(files@);
                assert(v.take(i as int + 1).drop_last() =~= v.take(i as int));
                assert(v.take(i as int + 1).last() == files@[i as int]@);
                lemma_size_sum_prefix(v, i as int + 1);
            }
            total = total + files[i].size;
            i = i + 1;
        }
        assert(infos_view(files@).take(files@.len() as int) =~= infos_view(files@));
        assert(infos_view(files@).take(0) =~= Seq::<FileInfoView>::empty());
        DownloadBatch {
            files,
            total_bytes: total,
            index: 0,
            accumulated: 0,
            current: 0,
            expected_current: 0,
            last_report_ms: 0,
            in_file: false,
            failed: false,
            sizes: Vec::new(),
            reported: Ghost(Seq::empty()),
        }
    }

    /// The number of files in the batch.
    pub fn file_count(&self) -> (r: usize)
        ensures
            r == self.files_spec().len(),
    {
        self.files.len()
    }

    /// The declared size of the whole batch.
    pub fn total_bytes(&self) -> (r: u64)
        ensures
            r == self.total_spec(),
    {
        self.total_bytes
    }

    /// The file to fetch now, and its position counting from 1.
    pub fn next_file(&self) -> (r: Option<(&FileInfo, usize)>)
        requires
            self.wf(),
        ensures
            r matches Some((f, k)) ==> self.pending() == Some(f@) && k == self.done_count() + 1,
            r is None ==> self.pending() is None,
    {
        if !self.failed && self.index < self.files.len() {
            Some((&self.files[self.index], self.index + 1))
        } else {
            None
        }
    }

    /// Whether every file has been downloaded and verified.
    pub fn is_complete(&self) -> (r: bool)
        requires
            self.wf(),
        ensures
            r == (!self.has_failed() && self.done_count() == self.files_spec().len()),
    {
        !self.failed && self.index == self.files.len()
    }

    /// Bytes received over the whole batch.
    pub fn received_bytes(&self) -> (r: u64)
        requires
            self.wf(),
        ensures
            r == self.received(),
    {
        self.accumulated + self.current
    }

    /// The byte counts of the files verified so far.
    pub fn sizes(&self) -> (r: &Vec<u64>)
        ensures
            r@ == self.sizes_spec(),
    {
        &self.sizes
    }

    /// The server answered the request for the pending file with `status`, and
    /// announced `content_length` bytes where it did. A status outside
    /// 200..=299 fails the file and the batch; otherwise the file's transfer
    /// begins with no bytes counted.
    pub fn start_file(&mut self, status: u16, content_length: Option<u64>) -> (r: Result<
        (),
        DownloadError,
    >)
        requires
            old(self).wf(),
            old(self).pending() is Some,
            !old(self).transferring(),
        ensures
            final(self).wf(),
            final(self).files_spec() == old(self).files_spec(),
            final(self).total_spec() == old(self).total_spec(),
            final(self).done_count() == old(self).done_count(),
            final(self).reported() == old(self).reported(),
            final(self).sizes_spec() == old(self).sizes_spec(),
            final(self).received() == old(self).received(),
            final(self).received() == sum_counts(final(self).sizes_spec()),
            status_ok(status) <==> r is Ok,
            r is Ok ==> final(self).transferring() && !final(self).has_failed()
                && final(self).current_bytes() == 0 && final(self).last_report() == 0
                && final(self).expected_bytes() == match content_length {
                Some(n) => n,
                None => old(self).pending()->0.size,
            },
            r matches Err(e) ==> e matches DownloadError::HttpStatus { path, status: s } && s
                == status && path@ == old(self).pending()->0.path,
            r is Err ==> final(self).has_failed() && !final(self).transferring()
                && final(self).pending() is None,
    {
        if !is_success(status) {
            self.failed = true;
            return Err(
                DownloadError::HttpStatus { path: self.files[self.index].path.clone(), status },
            );
        }
        self.in_file = true;
        self.current = 0;
        self.last_report_ms = 0;
        self.expected_current = match content_length {
            Some(n) => n,
            None => self.files[self.index].size,
        };
        Ok(())
    }

    /// A chunk of `len` bytes of the current file arrived, `elapsed_ms` after
    /// its transfer began. It is counted, and the progress event to emit is
    /// returned exactly when one is due: at least `PROGRESS_INTERVAL_MS` after
    /// the last one, or when the file reaches its expected byte count.
    pub fn on_chunk(&mut self, len: u64, elapsed_ms: u64) -> (r: Option<DownloadProgress>)
        requires
            old(self).wf(),
            old(self).transferring(),
            old(self).received() + len <= u64::MAX,
        ensures
            final(self).wf(),
            final(self).files_spec() == old(self).files_spec(),
            final(self).total_spec() == old(self).total_spec(),
            final(self).done_count() == old(self).done_count(),
            final(self).sizes_spec() == old(self).sizes_spec(),
            final(self).expected_bytes() == old(self).expected_bytes(),
            final(self).transferring(),
            !final(self).has_failed(),
            final(self).current_bytes() == old(self).current_bytes() + len,
            final(self).received() == old(self).received() + len,
            r is Some <==> old(self).event_due(elapsed_ms, final(self).current_bytes()),
            r matches Some(p) ==> p.downloaded_bytes == final(self).reported_count() && p.file_bytes
                == final(self).current_bytes() && p.total_bytes == final(self).total_spec()
                && p.file_name@ == old(self).pending()->0.path && p.current_file_index
                == old(self).done_count() + 1 && p.total_files == old(self).files_spec().len()
                && p.elapsed_ms == elapsed_ms && final(self).last_report() == elapsed_ms
                && final(self).reported() == old(self).reported().push(p.downloaded_bytes),
            r is None ==> final(self).reported() == old(self).reported() && final(self).last_report()
                == old(self).last_report(),
    {
        let ghost pre = *self;
        self.current = self.current + len;
        let due = (elapsed_ms >= self.last_report_ms && elapsed_ms - self.last_report_ms
            >= PROGRESS_INTERVAL_MS) || self.current == self.expected_current;
        if due {
            Some(self.report(elapsed_ms))
        } else {
            assert(forall|i: int|
                0 <= i < pre.reported@.len() ==> self.reported@[i] == pre.reported@[i]);
            None
        }
    }

    /// Records and builds a progress event for the current state.
    fn report(&mut self, elapsed_ms: u64) -> (p: DownloadProgress)
        requires
            old(self).wf(),
            old(self).transferring(),
        ensures
            final(self).wf(),
            final(self).files == old(self).files,
            final(self).total_bytes == old(self).total_bytes,
            final(self).index == old(self).index,
            final(self).accumulated == old(self).accumulated,
            final(self).current == old(self).current,
            final(self).expected_current == old(self).expected_current,
            final(self).in_file == old(self).in_file,
            final(self).failed == old(self).failed,
            final(self).sizes == old(self).sizes,
            final(self).last_report_ms == elapsed_ms,
            final(self).reported@ == old(self).reported@.push(p.downloaded_bytes),
            p.downloaded_bytes == old(self).reported_count(),
            p.file_bytes == old(self).current,
            p.total_bytes == old(self).total_bytes,
            p.file_name@ == old(self).files@[old(self).index as int].path@,
            p.current_file_index == old(self).index + 1,
            p.total_files == old(self).files@.len(),
            p.elapsed_ms == elapsed_ms,
    {
        let received = self.accumulated + self.current;
        let downloaded = if received <= self.total_bytes {
            received
        } else {
            self.total_bytes
        };
        self.last_report_ms = elapsed_ms;
        let ghost pre = self.reported@;
        self.reported = Ghost(self.reported@.push(downloaded));
        assert(forall|i: int| 0 <= i < pre.len() ==> self.reported@[i] == pre[i]);
        DownloadProgress {
            file_name: self.files[self.index].path.clone(),
            file_bytes: self.current,
            downloaded_bytes: downloaded,
            total_bytes: self.total_bytes,
            total_files: self.files.len(),
            current_file_index: self.index + 1,
            elapsed_ms,
        }
    }

    /// The body stream of the current file has ended, `elapsed_ms` after its
    /// transfer began: the completion event, which is always emitted.
    pub fn end_of_stream(&mut self, elapsed_ms: u64) -> (p: DownloadProgress)
        requires
            old(self).wf(),
            old(self).transferring(),
        ensures
            final(self).wf(),
            final(self).files_spec() == old(self).files_spec(),
            final(self).total_spec() == old(self).total_spec(),
            final(self).done_count() == old(self).done_count(),
            final(self).sizes_spec() == old(self).sizes_spec(),
            final(self).transferring(),
            !final(self).has_failed(),
            final(self).current_bytes() == old(self).current_bytes(),
            final(self).received() == old(self).received(),
            final(self).expected_bytes() == old(self).expected_bytes(),
            final(self).last_report() == elapsed_ms,
            p.downloaded_bytes == old(self).reported_count() && p.file_bytes == old(self).current_bytes()
                && p.total_bytes == old(self).total_spec() && p.file_name@ == old(self).pending()->0.path
                && p.current_file_index == old(self).done_count() + 1 && p.total_files
                == old(self).files_spec().len() && p.elapsed_ms == elapsed_ms,
            final(self).reported() == old(self).reported().push(p.downloaded_bytes),
    {
        self.report(elapsed_ms)
    }

    /// The connection broke or the body stream failed while the pending file
    /// was fetched. Fails the batch, and returns the error that names the file.
    pub fn abort_transport(&mut self, message: String) -> (e: DownloadError)
        requires
            old(self).wf(),
            old(self).pending() is Some,
        ensures
            e matches DownloadError::Transport { path, message: m } && path@
                == old(self).pending()->0.path && m == message,
            final(self).wf(),
            final(self).has_failed(),
            !final(self).transferring(),
            final(self).pending() is None,
            final(self).done_count() == old(self).done_count(),
            final(self).reported() == old(self).reported(),
            final(self).sizes_spec() == old(self).sizes_spec(),
    {
        let path = self.files[self.index].path.clone();
        self.failed = true;
        self.in_file = false;
        DownloadError::Transport { path, message }
    }

    /// The pending file's directory or file could not be created or written.
    /// Fails the batch, and returns the error that names the file.
    pub fn abort_io(&mut self, message: String) -> (e: DownloadError)
        requires
            old(self).wf(),
            old(self).pending() is Some,
        ensures
            e matches DownloadError::Io { path, message: m } && path@ == old(self).pending()->0.path
                && m == message,
            final(self).wf(),
            final(self).has_failed(),
            !final(self).transferring(),
            final(self).pending() is None,
            final(self).done_count() == old(self).done_count(),
            final(self).reported() == old(self).reported(),
            final(self).sizes_spec() == old(self).sizes_spec(),
    {
        let path = self.files[self.index].path.clone();
        self.failed = true;
        self.in_file = false;
        DownloadError::Io { path, message }
    }

    /// The current file is fully written and was read back with digest
    /// `local_hash` (`None`: it could not be read). A file whose digest is not
    /// the manifest's fails with an integrity error, and no further file is
    /// fetched; otherwise its byte count is returned and the batch moves on.
    pub fn finish_file(&mut self, local_hash: Option<String>) -> (r: Result<u64, DownloadError>)
        requires
            old(self).wf(),
            old(self).transferring(),
        ensures
            final(self).wf(),
            !final(self).transferring(),
            final(self).files_spec() == old(self).files_spec(),
            final(self).total_spec() == old(self).total_spec(),
            final(self).reported() == old(self).reported(),
            r is Ok <==> (local_hash matches Some(h) && h@ == old(self).pending()->0.hash),
            r matches Ok(n) ==> n == old(self).current_bytes() && final(self).done_count()
                == old(self).done_count() + 1 && !final(self).has_failed() && final(self).received()
                == old(self).received() && final(self).current_bytes() == 0
                && final(self).sizes_spec() == old(self).sizes_spec().push(n)
                && final(self).received() == sum_counts(final(self).sizes_spec()),
            r matches Err(e) ==> final(self).has_failed() && final(self).pending() is None
                && final(self).done_count() == old(self).done_count() && final(self).sizes_spec()
                == old(self).sizes_spec() && match local_hash {
                Some(h) => e matches DownloadError::Integrity { path, expected, actual } && path@
                    == old(self).pending()->0.path && expected@ == old(self).pending()->0.hash
                    && actual@ == h@,
                None => e matches DownloadError::Io { path, .. } && path@ == old(self).pending()->0.path,
            },
    {
        let i = self.index;
        let count = self.files.len();
        assert(i < count);
        match local_hash {
            Some(h) => {
                if h == self.files[i].hash {
                    let n = self.current;
                    self.accumulated = self.accumulated + n;
                    self.current = 0;
                    self.sizes.push(n);
                    assert(self.sizes@.drop_last() =~= old(self).sizes@);
                    self.index = i + 1;
                    self.in_file = false;
                    Ok(n)
                } else {
                    self.failed = true;
                    self.in_file = false;
                    Err(
                        DownloadError::Integrity {
                            path: self.files[i].path.clone(),
                            expected: self.files[i].hash.clone(),
                            actual: h,
                        },
                    )
                }
            },
            None => {
                self.failed = true;
                self.in_file = false;
                Err(
                    DownloadError::Io {
                        path: self.files[i].path.clone(),
                        message: String::from_str("the written file could not be read back"),
                    },
                )
            },
        }
    }

    /// Progress events of a batch: the reported byte counts never decrease and
    /// never exceed the batch's declared size, whatever the server sends; the
    /// bytes received are those of the verified files plus the current one.
    pub proof fn lemma_progress_bounded(&self)
        requires
            self.wf(),
        ensures
            forall|i: int, j: int|
                0 <= i < j < self.reported().len() ==> self.reported()[i] <= self.reported()[j],
            forall|i: int|
                0 <= i < self.reported().len() ==> self.reported()[i] <= self.total_spec(),
            self.received() == sum_counts(self.sizes_spec()) + self.current_bytes(),
    {
    }
}

} // verus!
