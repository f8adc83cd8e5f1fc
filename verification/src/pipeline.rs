//! The upload orchestrator, as a state machine.
//!
//! One upload request is one `UploadPipeline` value. The unverified shell
//! performs the I/O — reading multipart chunks, writing the transient file,
//! calling the two storage backends, removing the transient file — and
//! reports each event to the pipeline, which makes every decision: whether a
//! chunk is within the size cap, which temp path and storage key to use, and
//! how to classify the joined replication results.
//!
//! Phases move forward only: `Extracting` to `Writing` to `KeyGenerated` to
//! `Replicating` to `Succeeded` or `Failed`, with early exits to `Failed`.
//! The field `temp_present` models the call's transient file: it becomes
//! true when the pipeline hands out a temp path to create, and every
//! transition into a terminal phase first orders the file's removal (the
//! cleanup guard in the shell removes it before the outcome is surfaced).
//! Well-formedness therefore guarantees that no transient file of a
//! completed call remains, whatever the outcome.

use vstd::prelude::*;
use vstd::string::*;

use crate::config::Config;
use crate::error::StorageError;
use crate::services::{
    fresh_uuid_string, generate_file_key, is_uuid_text, sanitize_filename, spec_file_key,
    spec_sanitize, UploadResponse,
};
use crate::writer::BoundedWriter;

verus! {

/// The phases of one upload request, in the order they are visited.
#[derive(Clone, Copy, Debug, PartialEq, Eq, Structural)]
pub enum UploadPhase {
    /// Looking for the file field in the multipart body.
    Extracting,
    /// Streaming the file's bytes to the transient file.
    Writing,
    /// The stream ended within the cap and a storage key has been derived.
    KeyGenerated,
    /// Both backend uploads are in flight.
    Replicating,
    /// Both backends accepted the file; a response has been built.
    Succeeded,
    /// The request failed; an error has been surfaced.
    Failed,
}

/// What the shell needs to run the two concurrent backend uploads.
#[derive(Debug)]
pub struct ReplicationJob {
    /// The transient file both backends read.
    pub local_path: String,
    /// The object-store bucket.
    pub bucket: String,
    /// The object-store key.
    pub key: String,
}

/// The shape of a transient file path:
/// `"{temp_dir}/{unique}_{sanitized_filename}"`.
pub open spec fn spec_temp_path(dir: Seq<char>, unique: Seq<char>, sanitized: Seq<char>) -> Seq<
    char,
> {
    dir + "/"@ + unique + "_"@ + sanitized
}

/// The state of one upload request.
#[derive(Debug)]
pub struct UploadPipeline {
    /// The current phase.
    pub phase: UploadPhase,
    /// Whether a transient file of this call (still) exists.
    pub temp_present: bool,
    /// The size-cap account of the streamed write.
    pub writer: BoundedWriter,
    /// Directory for transient files, from the configuration.
    pub temp_dir: String,
    /// Object-store bucket, from the configuration.
    pub bucket: String,
    /// Object-store key prefix, from the configuration.
    pub key_prefix: String,
    /// The declared filename of the extracted part.
    pub filename: String,
    /// The transient file path handed to the shell.
    pub temp_path: String,
    /// The derived storage key.
    pub storage_key: String,
}

impl UploadPipeline {
    /// Terminal phases: the call has completed, successfully or not.
    pub open spec fn is_terminal(&self) -> bool {
        self.phase is Succeeded || self.phase is Failed
    }

    /// Well-formedness, preserved by every transition: the byte account
    /// stays within the cap, a transient file exists exactly during the
    /// phases that use one, and never once the call has completed.
    pub open spec fn wf(&self) -> bool {
        &&& self.writer.wf()
        &&& (self.phase is Extracting ==> !self.temp_present && self.writer.written == 0)
        &&& (self.phase is Writing ==> self.temp_present)
        &&& (self.phase is KeyGenerated ==> self.temp_present)
        &&& (self.phase is Replicating ==> self.temp_present)
        &&& (self.is_terminal() ==> !self.temp_present)
    }

    /// The configuration fields the pipeline carries are never rewritten.
    pub open spec fn config_unchanged(pre: Self, post: Self) -> bool {
        &&& post.temp_dir == pre.temp_dir
        &&& post.bucket == pre.bucket
        &&& post.key_prefix == pre.key_prefix
        &&& post.writer.limit == pre.writer.limit
    }

    /// Start a request: no file field seen yet, nothing written, no
    /// transient file.
    pub fn new(config: &Config) -> (p: UploadPipeline)
        ensures
            p.wf(),
            p.phase is Extracting,
            !p.temp_present,
            p.writer.limit == config.upload.max_file_size as u64,
            p.writer.written == 0,
            p.temp_dir@ == config.upload.temp_dir@,
            p.bucket@ == config.s3.bucket@,
            p.key_prefix@ == config.s3.key_prefix@,
    {
        UploadPipeline {
            phase: UploadPhase::Extracting,
            temp_present: false,
            writer: BoundedWriter::new(config.upload.max_file_size as u64),
            temp_dir: config.upload.temp_dir.clone(),
            bucket: config.s3.bucket.clone(),
            key_prefix: config.s3.key_prefix.clone(),
            filename: String::new(),
            temp_path: String::new(),
            storage_key: String::new(),
        }
    }

    /// The multipart body held no file field: the request fails with
    /// `NoFileError`, and no transient file was ever created.
    pub fn on_no_file(&mut self) -> (e: StorageError)
        requires
            old(self).wf(),
            old(self).phase is Extracting,
        ensures
            final(self).wf(),
            final(self).phase is Failed,
            !final(self).temp_present,
            Self::config_unchanged(*old(self), *final(self)),
            e is NoFileError,
    {
        self.phase = UploadPhase::Failed;
        StorageError::NoFileError
    }

    /// The multipart body could not be parsed before any file data was
    /// staged: the request fails with `MultipartError`.
    pub fn on_extract_error(&mut self, message: String) -> (e: StorageError)
        requires
            old(self).wf(),
            old(self).phase is Extracting,
        ensures
            final(self).wf(),
            final(self).phase is Failed,
            !final(self).temp_present,
            Self::config_unchanged(*old(self), *final(self)),
            e == StorageError::MultipartError(message),
    {
        self.phase = UploadPhase::Failed;
        StorageError::MultipartError(message)
    }

    /// The file field was found: derive a unique transient path under the
    /// configured temp directory and hand it to the shell, which creates
    /// the file there. The path embeds a fresh random component, so no two
    /// concurrent uploads ever target the same transient path, and the
    /// sanitized filename, so an attacker-controlled name cannot carry path
    /// separators into it.
    pub fn on_file_found(&mut self, filename: String) -> (path: String)
        requires
            old(self).wf(),
            old(self).phase is Extracting,
        ensures
            final(self).wf(),
            final(self).phase is Writing,
            final(self).temp_present,
            final(self).writer == old(self).writer,
            Self::config_unchanged(*old(self), *final(self)),
            final(self).filename@ == filename@,
            exists|u: Seq<char>|
                is_uuid_text(u) && path@ == spec_temp_path(
                    old(self).temp_dir@,
                    u,
                    spec_sanitize(filename@),
                ),
            final(self).temp_path == path,
    {
        let unique = fresh_uuid_string();
        let sanitized = sanitize_filename(filename.as_str());
        let mut path = String::from_str(self.temp_dir.as_str());
        path.append("/");
        path.append(unique.as_str());
        path.append("_");
        path.append(sanitized.as_str());
        self.filename = filename;
        self.temp_path = path.clone();
        self.temp_present = true;
        self.phase = UploadPhase::Writing;
        path
    }

    /// One chunk of `len` bytes arrived. Within the cap it is accounted and
    /// the shell appends it to the transient file; past the cap the request
    /// fails with `SizeLimitExceeded` and the transient file is removed, so
    /// no partially written file beyond the cap ever survives the call.
    pub fn on_chunk(&mut self, len: usize) -> (r: Result<(), StorageError>)
        requires
            old(self).wf(),
            old(self).phase is Writing,
        ensures
            final(self).wf(),
            Self::config_unchanged(*old(self), *final(self)),
            final(self).filename == old(self).filename,
            final(self).temp_path == old(self).temp_path,
            old(self).writer.written + len <= old(self).writer.limit ==> {
                &&& r is Ok
                &&& final(self).phase is Writing
                &&& final(self).temp_present
                &&& final(self).writer.written == old(self).writer.written + len
            },
            old(self).writer.written + len > old(self).writer.limit ==> {
                &&& r == Err::<(), StorageError>(
                    StorageError::SizeLimitExceeded(old(self).writer.limit),
                )
                &&& final(self).phase is Failed
                &&& !final(self).temp_present
            },
    {
        match self.writer.record_chunk(len) {
            Ok(()) => Ok(()),
            Err(e) => {
                self.temp_present = false;
                self.phase = UploadPhase::Failed;
                Err(e)
            },
        }
    }

    /// The stream failed mid-write (an I/O error on the transient file, a
    /// malformed chunk, a disconnected client): the request fails with the
    /// given error and the transient file is removed.
    pub fn on_stream_error(&mut self, error: StorageError) -> (e: StorageError)
        requires
            old(self).wf(),
            old(self).phase is Writing,
        ensures
            final(self).wf(),
            final(self).phase is Failed,
            !final(self).temp_present,
            Self::config_unchanged(*old(self), *final(self)),
            e == error,
    {
        self.temp_present = false;
        self.phase = UploadPhase::Failed;
        error
    }

    /// The stream ended within the cap: the transient file is complete and
    /// flushed, and the storage key is derived from the filename and the
    /// configured prefix with a fresh unique component.
    pub fn finish_writing(&mut self)
        requires
            old(self).wf(),
            old(self).phase is Writing,
        ensures
            final(self).wf(),
            final(self).phase is KeyGenerated,
            final(self).temp_present,
            final(self).writer == old(self).writer,
            Self::config_unchanged(*old(self), *final(self)),
            final(self).filename == old(self).filename,
            final(self).temp_path == old(self).temp_path,
            exists|u: Seq<char>|
                is_uuid_text(u) && final(self).storage_key@ == spec_file_key(
                    old(self).key_prefix@,
                    u,
                    spec_sanitize(old(self).filename@),
                ),
    {
        let key = generate_file_key(self.filename.as_str(), self.key_prefix.as_str());
        self.storage_key = key;
        self.phase = UploadPhase::KeyGenerated;
    }

    /// Dispatch replication: hand the shell the transient path, bucket and
    /// key for the two concurrent backend uploads.
    pub fn start_replication(&mut self) -> (job: ReplicationJob)
        requires
            old(self).wf(),
            old(self).phase is KeyGenerated,
        ensures
            final(self).wf(),
            final(self).phase is Replicating,
            final(self).temp_present,
            final(self).writer == old(self).writer,
            Self::config_unchanged(*old(self), *final(self)),
            final(self).filename == old(self).filename,
            final(self).temp_path == old(self).temp_path,
            final(self).storage_key == old(self).storage_key,
            job.local_path == old(self).temp_path,
            job.bucket == old(self).bucket,
            job.key == old(self).storage_key,
    {
        self.phase = UploadPhase::Replicating;
        ReplicationJob {
            local_path: self.temp_path.clone(),
            bucket: self.bucket.clone(),
            key: self.storage_key.clone(),
        }
    }

    /// Both backend calls have finished, in whatever order. The transient
    /// file is removed first, on every path. The request succeeds exactly
    /// when both backends returned a non-empty locator, and the response
    /// then carries both locators, the original filename and the exact byte
    /// count written. A failed backend fails the whole request, the object
    /// store's failure taking precedence; nothing is rolled back.
    pub fn on_replication_done(
        &mut self,
        s3_result: Result<String, StorageError>,
        ipfs_result: Result<String, StorageError>,
    ) -> (r: Result<UploadResponse, StorageError>)
        requires
            old(self).wf(),
            old(self).phase is Replicating,
        ensures
            final(self).wf(),
            final(self).is_terminal(),
            !final(self).temp_present,
            Self::config_unchanged(*old(self), *final(self)),
            r is Ok <==> (s3_result matches Ok(s) && s@.len() > 0 && (ipfs_result matches Ok(h)
                && h@.len() > 0)),
            r is Ok <==> final(self).phase is Succeeded,
            r is Err <==> final(self).phase is Failed,
            (r matches Ok(resp) ==> {
                &&& (s3_result matches Ok(s) && resp.s3_url == s)
                &&& (ipfs_result matches Ok(h) && resp.ipfs_hash == h)
                &&& resp.filename@ == old(self).filename@
                &&& resp.size == old(self).writer.written
                &&& resp.s3_url@.len() > 0
                &&& resp.ipfs_hash@.len() > 0
            }),
            (s3_result matches Err(e) ==> r == Err::<UploadResponse, StorageError>(e)),
            s3_result is Ok ==> (ipfs_result matches Err(e) ==> r == Err::<
                UploadResponse,
                StorageError,
            >(e)),
            (s3_result matches Ok(s) && s@.len() == 0 && ipfs_result is Ok ==> (r matches Err(
                StorageError::S3Error(m),
            ) && m@ == "empty locator returned"@)),
            (s3_result matches Ok(s) && s@.len() > 0 && (ipfs_result matches Ok(h) && h@.len()
                == 0) ==> (r matches Err(StorageError::IpfsError(m)) && m@
                == "empty content address returned"@)),
    {
        self.temp_present = false;
        match s3_result {
            Err(e) => {
                self.phase = UploadPhase::Failed;
                Err(e)
            },
            Ok(s3_url) => match ipfs_result {
                Err(e) => {
                    self.phase = UploadPhase::Failed;
                    Err(e)
                },
                Ok(ipfs_hash) => {
                    if s3_url.as_str().is_empty() {
                        self.phase = UploadPhase::Failed;
                        Err(StorageError::S3Error(String::from_str("empty locator returned")))
                    } else if ipfs_hash.as_str().is_empty() {
                        self.phase = UploadPhase::Failed;
                        Err(
                            StorageError::IpfsError(
                                String::from_str("empty content address returned"),
                            ),
                        )
                    } else {
                        self.phase = UploadPhase::Succeeded;
                        Ok(
                            UploadResponse {
                                s3_url,
                                ipfs_hash,
                                filename: self.filename.clone(),
                                size: self.writer.byte_count(),
                            },
                        )
                    }
                },
            },
        }
    }
}

/// Law: once a call has completed — its pipeline is in a terminal phase,
/// successful or failed — no transient file belonging to that call remains.
pub proof fn lemma_no_transient_file_when_terminal(p: UploadPipeline)
    requires
        p.wf(),
        p.is_terminal(),
    ensures
        !p.temp_present,
{
}

} // verus!
