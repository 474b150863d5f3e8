//! Uploading a file in chunks, each posted with the byte range it covers.
//!
//! Reading the file and posting are the caller's: `ChunkedUpload` says what
//! to do next and is told what came of it.
use vstd::prelude::*;

use crate::text::{concat2, decimal, u64_to_decimal};

verus! {

/// The `Content-Range` of the bytes `start` to `end` (inclusive) of a file of
/// `total` bytes.
pub open spec fn content_range_text(start: nat, end: nat, total: nat) -> Seq<char> {
    "bytes "@ + decimal(start) + "-"@ + decimal(end) + "/"@ + decimal(total)
}

/// The error of an upload whose chunk was refused with a status shown as
/// `status`.
pub open spec fn upload_failed_text(status: Seq<char>) -> Seq<char> {
    "Upload failed with status: "@ + status
}

/// The `Content-Range` header of `len` bytes from `start` in a file of
/// `total` bytes.
pub fn content_range(start: u64, len: u64, total: u64) -> (r: String)
    requires
        len > 0,
        start + len - 1 <= u64::MAX,
    ensures
        r@ == content_range_text(start as nat, (start + len - 1) as nat, total as nat),
{
    let a = concat2("bytes ", u64_to_decimal(start).as_str());
    let b = concat2("-", u64_to_decimal(start + (len - 1)).as_str());
    let c = concat2("/", u64_to_decimal(total).as_str());
    let r = concat2(a.as_str(), b.as_str());
    let r = concat2(r.as_str(), c.as_str());
    assert(r@ =~= content_range_text(start as nat, (start + len - 1) as nat, total as nat));
    r
}

/// An upload in progress: how much of the file has gone out, the file's size
/// and the most read for one chunk.
pub struct ChunkedUpload {
    uploaded: u64,
    file_size: u64,
    chunk_size: usize,
}

/// What to do next.
#[derive(Debug)]
pub enum UploadStep {
    /// Read up to this many bytes of the file, from where the last read ended.
    Read(usize),
    /// Post the bytes just read, with this `Content-Range`.
    Send(String),
    /// The upload is complete.
    Finished,
    /// The upload failed.
    Failed(String),
}

impl ChunkedUpload {
    /// How many bytes have gone out.
    pub closed spec fn spec_uploaded(&self) -> u64 {
        self.uploaded
    }

    /// The file's size.
    pub closed spec fn spec_file_size(&self) -> u64 {
        self.file_size
    }

    /// The most read for one chunk.
    pub closed spec fn spec_chunk_size(&self) -> usize {
        self.chunk_size
    }

    /// What to do next in an upload that has sent `uploaded` bytes: read more
    /// while the file is not all sent.
    pub open spec fn next_step(&self, s: UploadStep) -> bool {
        if self.spec_uploaded() < self.spec_file_size() {
            s matches UploadStep::Read(n) && n == self.spec_chunk_size()
        } else {
            s is Finished
        }
    }

    /// An upload of a file of `file_size` bytes in chunks of `chunk_size`.
    pub fn new(file_size: u64, chunk_size: usize) -> (r: ChunkedUpload)
        ensures
            r.spec_uploaded() == 0,
            r.spec_file_size() == file_size,
            r.spec_chunk_size() == chunk_size,
    {
        ChunkedUpload { uploaded: 0, file_size, chunk_size }
    }

    /// How many bytes have gone out.
    pub fn uploaded(&self) -> (r: u64)
        ensures
            r == self.spec_uploaded(),
    {
        self.uploaded
    }

    /// The first step, and the step after each chunk that went out.
    pub fn next(&self) -> (r: UploadStep)
        ensures
            self.next_step(r),
    {
        if self.uploaded < self.file_size {
            UploadStep::Read(self.chunk_size)
        } else {
            UploadStep::Finished
        }
    }

    /// The step after reading `read_size` bytes: an empty read ends the
    /// upload; otherwise the bytes go out with the range from where the last
    /// chunk ended.
    pub fn on_read(&self, read_size: usize) -> (r: UploadStep)
        requires
            self.spec_uploaded() + read_size <= u64::MAX,
        ensures
            read_size == 0 ==> r is Finished,
            read_size > 0 ==> (r matches UploadStep::Send(range) && range@ == content_range_text(
                self.spec_uploaded() as nat,
                (self.spec_uploaded() + read_size - 1) as nat,
                self.spec_file_size() as nat,
            )),
    {
        if read_size == 0 {
            return UploadStep::Finished;
        }
        UploadStep::Send(content_range(self.uploaded, read_size as u64, self.file_size))
    }

    /// Records that a chunk of `read_size` bytes was answered with `status`
    /// (shown as `status_text`) and gives the next step: a refusal fails the
    /// upload, a success counts the bytes as sent.
    pub fn on_sent(&mut self, read_size: usize, status: u16, status_text: &str) -> (r: UploadStep)
        requires
            old(self).spec_uploaded() + read_size <= u64::MAX,
        ensures
            final(self).spec_file_size() == old(self).spec_file_size(),
            final(self).spec_chunk_size() == old(self).spec_chunk_size(),
            !(200 <= status < 300) ==> final(self).spec_uploaded() == old(self).spec_uploaded(),
            !(200 <= status < 300) ==> (r matches UploadStep::Failed(m) && m@ == upload_failed_text(
                status_text@,
            )),
            200 <= status < 300 ==> final(self).spec_uploaded() == old(self).spec_uploaded()
                + read_size && final(self).next_step(r),
    {
        if !(200 <= status && status < 300) {
            return UploadStep::Failed(concat2("Upload failed with status: ", status_text));
        }
        self.uploaded = self.uploaded + read_size as u64;
        self.next()
    }
}

} // verus!
