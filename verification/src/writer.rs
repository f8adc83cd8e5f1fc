//! Bounded stream writer accounting.
//!
//! The unverified shell writes each multipart chunk to the transient file as
//! it arrives; this type is the authoritative account of how many bytes have
//! been accepted, and it is the component that enforces the configured size
//! cap while streaming. A chunk that would push the running total past the
//! cap is rejected, and the rejection is the signal to abort the stream and
//! discard the partially written file.

use vstd::prelude::*;

use crate::error::StorageError;

verus! {

/// Running byte count of a streamed write, bounded by a fixed cap.
#[derive(Debug, Clone, Copy)]
pub struct BoundedWriter {
    /// The configured maximum file size in bytes.
    pub limit: u64,
    /// Bytes accepted so far; never exceeds `limit`.
    pub written: u64,
}

impl BoundedWriter {
    /// The running total never exceeds the cap.
    pub open spec fn wf(&self) -> bool {
        self.written <= self.limit
    }

    /// A fresh account with nothing written.
    pub fn new(limit: u64) -> (w: BoundedWriter)
        ensures
            w.limit == limit,
            w.written == 0,
            w.wf(),
    {
        BoundedWriter { limit, written: 0 }
    }

    /// Account for one arriving chunk of `len` bytes. The chunk is accepted
    /// exactly when it keeps the running total within the cap; otherwise the
    /// account is unchanged and the caller must abort the stream.
    pub fn record_chunk(&mut self, len: usize) -> (r: Result<(), StorageError>)
        requires
            old(self).wf(),
        ensures
            final(self).wf(),
            final(self).limit == old(self).limit,
            old(self).written + len <= old(self).limit ==> r is Ok && final(self).written == old(
                self,
            ).written + len,
            old(self).written + len > old(self).limit ==> r == Err::<(), StorageError>(
                StorageError::SizeLimitExceeded(old(self).limit),
            ) && final(self).written == old(self).written,
    {
        if len as u64 <= self.limit - self.written {
            self.written = self.written + len as u64;
            Ok(())
        } else {
            Err(StorageError::SizeLimitExceeded(self.limit))
        }
    }

    /// The number of bytes accepted so far.
    pub fn byte_count(&self) -> (n: u64)
        ensures
            n == self.written,
    {
        self.written
    }
}

} // verus!
