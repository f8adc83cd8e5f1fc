use memenow_storage_service::config::Config;
use memenow_storage_service::error::StorageError;
use memenow_storage_service::pipeline::{UploadPhase, UploadPipeline};
use memenow_storage_service::writer::BoundedWriter;

fn config_with_cap(max_file_size: usize) -> Config {
    let mut config = Config::default();
    config.upload.max_file_size = max_file_size;
    config
}

#[test]
fn test_upload_small_file_succeeds() {
    // A 10-byte upload of "hello.txt" under a 1000-byte cap succeeds with
    // both locators and the exact byte count.
    let config = config_with_cap(1000);
    let mut pipeline = UploadPipeline::new(&config);
    let path = pipeline.on_file_found("hello.txt".to_string());
    assert!(path.starts_with("/tmp/"));
    assert!(path.ends_with("_hello.txt"));
    assert!(pipeline.on_chunk(10).is_ok());
    pipeline.finish_writing();
    let job = pipeline.start_replication();
    assert_eq!(job.local_path, path);
    assert_eq!(job.bucket, "default-bucket");
    assert!(job.key.starts_with("uploads/"));
    assert!(job.key.ends_with("_hello.txt"));
    let outcome = pipeline.on_replication_done(
        Ok("https://default-bucket.s3.amazonaws.com/uploads/x_hello.txt".to_string()),
        Ok("QmHash".to_string()),
    );
    let response = outcome.expect("both backends succeeded");
    assert!(!response.s3_url.is_empty());
    assert!(!response.ipfs_hash.is_empty());
    assert_eq!(response.filename, "hello.txt");
    assert_eq!(response.size, 10);
    assert!(matches!(pipeline.phase, UploadPhase::Succeeded));
    assert!(!pipeline.temp_present);
}

#[test]
fn test_upload_over_cap_fails_and_cleans_up() {
    // A 2000-byte stream under a 1000-byte cap fails with
    // SizeLimitExceeded and leaves no transient file.
    let config = config_with_cap(1000);
    let mut pipeline = UploadPipeline::new(&config);
    let _path = pipeline.on_file_found("big.bin".to_string());
    let mut outcome = Ok(());
    for _ in 0..4 {
        outcome = pipeline.on_chunk(500);
        if outcome.is_err() {
            break;
        }
    }
    match outcome {
        Err(StorageError::SizeLimitExceeded(limit)) => assert_eq!(limit, 1000),
        other => panic!("expected the size cap to reject the stream, got {:?}", other),
    }
    assert!(matches!(pipeline.phase, UploadPhase::Failed));
    assert!(!pipeline.temp_present);
}

#[test]
fn test_upload_no_file_field() {
    // A multipart body without a file field fails with NoFileError and no
    // transient file is ever created.
    let config = config_with_cap(1000);
    let mut pipeline = UploadPipeline::new(&config);
    let error = pipeline.on_no_file();
    assert!(matches!(error, StorageError::NoFileError));
    assert!(matches!(pipeline.phase, UploadPhase::Failed));
    assert!(!pipeline.temp_present);
}

#[test]
fn test_upload_same_bytes_twice_distinct_keys() {
    // Uploading identical bytes twice yields two distinct object-store
    // keys (and thus locators), while the content-addressed store reports
    // the same address both times.
    let config = config_with_cap(1000);
    let mut first = UploadPipeline::new(&config);
    let mut second = UploadPipeline::new(&config);
    let path1 = first.on_file_found("same.txt".to_string());
    let path2 = second.on_file_found("same.txt".to_string());
    assert_ne!(path1, path2);
    assert!(first.on_chunk(42).is_ok());
    assert!(second.on_chunk(42).is_ok());
    first.finish_writing();
    second.finish_writing();
    let job1 = first.start_replication();
    let job2 = second.start_replication();
    assert_ne!(job1.key, job2.key);
    let response1 = first
        .on_replication_done(
            Ok(format!("https://default-bucket.s3.amazonaws.com/{}", job1.key)),
            Ok("QmSameContent".to_string()),
        )
        .expect("first upload succeeds");
    let response2 = second
        .on_replication_done(
            Ok(format!("https://default-bucket.s3.amazonaws.com/{}", job2.key)),
            Ok("QmSameContent".to_string()),
        )
        .expect("second upload succeeds");
    assert_ne!(response1.s3_url, response2.s3_url);
    assert_eq!(response1.ipfs_hash, response2.ipfs_hash);
}

#[test]
fn test_replication_s3_failure_fails_upload() {
    let config = config_with_cap(1000);
    let mut pipeline = UploadPipeline::new(&config);
    let _path = pipeline.on_file_found("a.txt".to_string());
    assert!(pipeline.on_chunk(5).is_ok());
    pipeline.finish_writing();
    let _job = pipeline.start_replication();
    let outcome = pipeline.on_replication_done(
        Err(StorageError::S3Error("bucket not found".to_string())),
        Ok("QmHash".to_string()),
    );
    match outcome {
        Err(StorageError::S3Error(m)) => assert_eq!(m, "bucket not found"),
        other => panic!("expected the object-store failure, got {:?}", other),
    }
    assert!(matches!(pipeline.phase, UploadPhase::Failed));
    assert!(!pipeline.temp_present);
}

#[test]
fn test_replication_ipfs_failure_fails_upload() {
    let config = config_with_cap(1000);
    let mut pipeline = UploadPipeline::new(&config);
    let _path = pipeline.on_file_found("a.txt".to_string());
    assert!(pipeline.on_chunk(5).is_ok());
    pipeline.finish_writing();
    let _job = pipeline.start_replication();
    let outcome = pipeline.on_replication_done(
        Ok("https://somewhere/object".to_string()),
        Err(StorageError::IpfsError("daemon unreachable".to_string())),
    );
    match outcome {
        Err(StorageError::IpfsError(m)) => assert_eq!(m, "daemon unreachable"),
        other => panic!("expected the content-store failure, got {:?}", other),
    }
    assert!(matches!(pipeline.phase, UploadPhase::Failed));
    assert!(!pipeline.temp_present);
}

#[test]
fn test_replication_empty_locator_fails_upload() {
    let config = config_with_cap(1000);
    let mut pipeline = UploadPipeline::new(&config);
    let _path = pipeline.on_file_found("a.txt".to_string());
    assert!(pipeline.on_chunk(5).is_ok());
    pipeline.finish_writing();
    let _job = pipeline.start_replication();
    let outcome = pipeline.on_replication_done(Ok(String::new()), Ok("QmHash".to_string()));
    assert!(matches!(outcome, Err(StorageError::S3Error(_))));
    assert!(!pipeline.temp_present);
}

#[test]
fn test_replication_empty_content_address_fails_upload() {
    let config = config_with_cap(1000);
    let mut pipeline = UploadPipeline::new(&config);
    let _path = pipeline.on_file_found("a.txt".to_string());
    assert!(pipeline.on_chunk(5).is_ok());
    pipeline.finish_writing();
    let _job = pipeline.start_replication();
    let outcome =
        pipeline.on_replication_done(Ok("https://somewhere/object".to_string()), Ok(String::new()));
    assert!(matches!(outcome, Err(StorageError::IpfsError(_))));
    assert!(!pipeline.temp_present);
}

#[test]
fn test_stream_error_cleans_up() {
    let config = config_with_cap(1000);
    let mut pipeline = UploadPipeline::new(&config);
    let _path = pipeline.on_file_found("a.txt".to_string());
    assert!(pipeline.on_chunk(5).is_ok());
    let error = pipeline.on_stream_error(StorageError::MultipartError(
        "Failed to read chunk: connection reset".to_string(),
    ));
    assert!(matches!(error, StorageError::MultipartError(_)));
    assert!(matches!(pipeline.phase, UploadPhase::Failed));
    assert!(!pipeline.temp_present);
}

#[test]
fn test_extract_error_fails_request() {
    let config = config_with_cap(1000);
    let mut pipeline = UploadPipeline::new(&config);
    let error = pipeline.on_extract_error("unexpected end of body".to_string());
    match error {
        StorageError::MultipartError(m) => assert_eq!(m, "unexpected end of body"),
        other => panic!("expected a multipart error, got {:?}", other),
    }
    assert!(matches!(pipeline.phase, UploadPhase::Failed));
    assert!(!pipeline.temp_present);
}

#[test]
fn test_zero_byte_file_succeeds() {
    // An empty file field is a present file: the upload succeeds with
    // size 0.
    let config = config_with_cap(1000);
    let mut pipeline = UploadPipeline::new(&config);
    let _path = pipeline.on_file_found("empty.txt".to_string());
    pipeline.finish_writing();
    let _job = pipeline.start_replication();
    let response = pipeline
        .on_replication_done(Ok("https://somewhere/object".to_string()), Ok("QmEmpty".to_string()))
        .expect("zero-byte upload succeeds");
    assert_eq!(response.size, 0);
}

#[test]
fn test_bounded_writer_exact_cap() {
    let mut writer = BoundedWriter::new(100);
    assert!(writer.record_chunk(60).is_ok());
    assert!(writer.record_chunk(40).is_ok());
    assert_eq!(writer.byte_count(), 100);
    match writer.record_chunk(1) {
        Err(StorageError::SizeLimitExceeded(limit)) => assert_eq!(limit, 100),
        other => panic!("expected the cap to reject the chunk, got {:?}", other),
    }
    // a rejected chunk leaves the account unchanged
    assert_eq!(writer.byte_count(), 100);
}

#[test]
fn test_chunk_exactly_at_cap_accepted() {
    let config = config_with_cap(1000);
    let mut pipeline = UploadPipeline::new(&config);
    let _path = pipeline.on_file_found("fits.bin".to_string());
    assert!(pipeline.on_chunk(1000).is_ok());
    assert!(matches!(pipeline.phase, UploadPhase::Writing));
}
