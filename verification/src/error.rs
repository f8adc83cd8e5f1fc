//! Error taxonomy of the storage service.
//!
//! Every failure of the upload pipeline is captured in one tagged value and
//! propagated explicitly; nothing is swallowed except best-effort cleanup
//! failures, which the unverified shell merely logs.

use vstd::prelude::*;
use vstd::string::*;

use crate::text::{spec_u64_dec, u64_to_dec};

verus! {

/// `std::io::Error` is opaque to the verifier; it is carried through
/// unchanged and only its display text is ever read, behind a trusted
/// wrapper.
#[verifier::external_type_specification]
#[verifier::external_body]
pub struct ExIoError(std::io::Error);

/// Main error type for the storage service.
#[derive(Debug)]
pub enum StorageError {
    /// The object store rejected or failed an operation.
    S3Error(String),
    /// The content-addressed store rejected or failed an operation.
    IpfsError(String),
    /// A local filesystem operation failed.
    IoError(std::io::Error),
    /// The multipart body was malformed or truncated.
    MultipartError(String),
    /// The configuration was missing or invalid.
    ConfigError(String),
    /// A replication-stage failure that cannot be attributed to one backend.
    UploadError(String),
    /// The upload request carried no file field.
    NoFileError,
    /// An unexpected internal failure.
    InternalError(String),
    /// The AWS SDK reported an error.
    AwsError(String),
    /// The byte stream exceeded the configured maximum size; carries the
    /// configured limit in bytes.
    SizeLimitExceeded(u64),
}

/// Result type alias using `StorageError`.
pub type StorageResult<T> = Result<T, StorageError>;

/// Relies on `std::io::Error`'s `Display` implementation for the
/// human-readable message text; nothing is assumed about its content.
#[verifier::external_body]
fn io_error_text(e: &std::io::Error) -> (r: String) {
    format!("{}", e)
}

impl StorageError {
    /// The human-readable message for this error.
    pub fn message(&self) -> (r: String)
        ensures
            (self matches StorageError::S3Error(m) ==> r@ == "S3 operation failed: "@ + m@),
            (self matches StorageError::IpfsError(m) ==> r@ == "IPFS operation failed: "@ + m@),
            (self matches StorageError::IoError(_) ==> r@.len() >= "File I/O error: "@.len()
                && r@.take("File I/O error: "@.len() as int) == "File I/O error: "@),
            (self matches StorageError::MultipartError(m) ==> r@
                == "Failed to parse multipart form data: "@ + m@),
            (self matches StorageError::ConfigError(m) ==> r@ == "Configuration error: "@ + m@),
            (self matches StorageError::UploadError(m) ==> r@ == "Upload processing failed: "@
                + m@),
            (self is NoFileError ==> r@ == "No file found in upload request"@),
            (self matches StorageError::InternalError(m) ==> r@ == "Internal server error: "@
                + m@),
            (self matches StorageError::AwsError(m) ==> r@ == "AWS SDK error: "@ + m@),
            (self matches StorageError::SizeLimitExceeded(limit) ==> r@
                == "File size exceeds maximum allowed size of "@ + spec_u64_dec(limit as int)
                + " bytes"@),
    {
        match self {
            StorageError::S3Error(m) => {
                let mut r = String::from_str("S3 operation failed: ");
                r.append(m.as_str());
                r
            },
            StorageError::IpfsError(m) => {
                let mut r = String::from_str("IPFS operation failed: ");
                r.append(m.as_str());
                r
            },
            StorageError::IoError(e) => {
                let mut r = String::from_str("File I/O error: ");
                let text = io_error_text(e);
                r.append(text.as_str());
                proof {
                    assert(r@.take("File I/O error: "@.len() as int) =~= "File I/O error: "@);
                }
                r
            },
            StorageError::MultipartError(m) => {
                let mut r = String::from_str("Failed to parse multipart form data: ");
                r.append(m.as_str());
                r
            },
            StorageError::ConfigError(m) => {
                let mut r = String::from_str("Configuration error: ");
                r.append(m.as_str());
                r
            },
            StorageError::UploadError(m) => {
                let mut r = String::from_str("Upload processing failed: ");
                r.append(m.as_str());
                r
            },
            StorageError::NoFileError => String::from_str("No file found in upload request"),
            StorageError::InternalError(m) => {
                let mut r = String::from_str("Internal server error: ");
                r.append(m.as_str());
                r
            },
            StorageError::AwsError(m) => {
                let mut r = String::from_str("AWS SDK error: ");
                r.append(m.as_str());
                r
            },
            StorageError::SizeLimitExceeded(limit) => {
                let mut r = String::from_str("File size exceeds maximum allowed size of ");
                let dec = u64_to_dec(*limit);
                r.append(dec.as_str());
                r.append(" bytes");
                r
            },
        }
    }
}

impl From<std::io::Error> for StorageError {
    /// A local I/O failure is carried as `IoError`, unchanged.
    fn from(e: std::io::Error) -> (r: StorageError)
        ensures
            r == StorageError::IoError(e),
    {
        StorageError::IoError(e)
    }
}

impl vstd::std_specs::convert::FromSpecImpl<std::io::Error> for StorageError {
    open spec fn obeys_from_spec() -> bool {
        true
    }

    open spec fn from_spec(e: std::io::Error) -> StorageError {
        StorageError::IoError(e)
    }
}

} // verus!
