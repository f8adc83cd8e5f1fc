//! Configuration of the storage service.
//!
//! Configuration is an immutable value handed to the pipeline; reading it
//! from the process environment is the job of the unverified shell. This
//! module holds the configuration types, their defaults, and validation.

use vstd::prelude::*;
use vstd::string::*;

use crate::error::{StorageError, StorageResult};

verus! {

/// Object store configuration.
#[derive(Debug, Clone)]
pub struct S3Config {
    /// The bucket files are uploaded to.
    pub bucket: String,
    /// The key prefix for uploaded files (e.g., "uploads").
    pub key_prefix: String,
    /// The bucket's region (e.g., "us-east-1").
    pub region: String,
}

/// Server configuration.
#[derive(Debug, Clone)]
pub struct ServerConfig {
    /// The host address to bind to (e.g., "0.0.0.0").
    pub host: String,
    /// The port number to listen on (e.g., 8080).
    pub port: u16,
}

/// Upload configuration.
#[derive(Debug, Clone)]
pub struct UploadConfig {
    /// Maximum accepted file size in bytes.
    pub max_file_size: usize,
    /// Directory for transient file storage.
    pub temp_dir: String,
}

/// Main configuration structure for the storage service.
#[derive(Debug, Clone)]
pub struct Config {
    /// Object store configuration.
    pub s3: S3Config,
    /// Server configuration.
    pub server: ServerConfig,
    /// Upload configuration.
    pub upload: UploadConfig,
}

impl Config {
    /// A configuration is acceptable when the bucket name is non-empty, the
    /// port is non-zero and the size cap is non-zero.
    pub open spec fn is_valid(&self) -> bool {
        &&& self.s3.bucket@.len() > 0
        &&& self.server.port > 0
        &&& self.upload.max_file_size > 0
    }

    /// Validate the configuration: `Ok` exactly on acceptable values, and
    /// the first offending field (bucket, then port, then size cap) names
    /// the error.
    pub fn validate(&self) -> (r: StorageResult<()>)
        ensures
            r is Ok <==> self.is_valid(),
            (self.s3.bucket@.len() == 0 ==> (r matches Err(StorageError::ConfigError(m)) && m@
                == "S3 bucket name cannot be empty"@)),
            (self.s3.bucket@.len() > 0 && self.server.port == 0 ==> (r matches Err(
                StorageError::ConfigError(m),
            ) && m@ == "Server port must be greater than 0"@)),
            (self.s3.bucket@.len() > 0 && self.server.port > 0 && self.upload.max_file_size == 0
                ==> (r matches Err(StorageError::ConfigError(m)) && m@
                == "Max file size must be greater than 0"@)),
    {
        if self.s3.bucket.as_str().is_empty() {
            return Err(
                StorageError::ConfigError(String::from_str("S3 bucket name cannot be empty")),
            );
        }
        if self.server.port == 0 {
            return Err(
                StorageError::ConfigError(String::from_str("Server port must be greater than 0")),
            );
        }
        if self.upload.max_file_size == 0 {
            return Err(
                StorageError::ConfigError(String::from_str("Max file size must be greater than 0")),
            );
        }
        Ok(())
    }
}

impl Default for Config {
    /// The built-in defaults: a placeholder bucket, the standard region,
    /// port 8080 and a 5 MiB size cap.
    fn default() -> (c: Self)
        ensures
            c.s3.bucket@ == "default-bucket"@,
            c.s3.key_prefix@ == "uploads"@,
            c.s3.region@ == "us-east-1"@,
            c.server.host@ == "0.0.0.0"@,
            c.server.port == 8080,
            c.upload.max_file_size == 5242880,
            c.upload.temp_dir@ == "/tmp"@,
            c.is_valid(),
    {
        proof {
            reveal_strlit("default-bucket");
        }
        Config {
            s3: S3Config {
                bucket: String::from_str("default-bucket"),
                key_prefix: String::from_str("uploads"),
                region: String::from_str("us-east-1"),
            },
            server: ServerConfig { host: String::from_str("0.0.0.0"), port: 8080 },
            upload: UploadConfig { max_file_size: 5242880, temp_dir: String::from_str("/tmp") },
        }
    }
}

} // verus!
