//! Verified core of a dual-backend file upload service.
//!
//! The library models the upload pipeline: extracting a file field from a
//! multipart request, staging its bytes to a transient file under a size cap,
//! deriving a collision-resistant storage key, replicating to an object store
//! and a content-addressed store, and guaranteeing cleanup of the transient
//! file on every exit path. All I/O is performed by an unverified shell that
//! drives the state machine defined here.

pub mod config;
pub mod error;
pub mod pipeline;
pub mod s3;
pub mod services;
pub mod text;
pub mod writer;
