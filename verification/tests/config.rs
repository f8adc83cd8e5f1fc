use memenow_storage_service::config::Config;
use memenow_storage_service::error::StorageError;

#[test]
fn test_default_config() {
    let config = Config::default();
    assert_eq!(config.server.port, 8080);
    assert_eq!(config.upload.max_file_size, 5_242_880);
}

#[test]
fn test_validate_empty_bucket() {
    let mut config = Config::default();
    config.s3.bucket = String::new();
    assert!(config.validate().is_err());
}

#[test]
fn test_validate_zero_port() {
    let mut config = Config::default();
    config.server.port = 0;
    assert!(config.validate().is_err());
}

#[test]
fn test_validate_valid_config() {
    let config = Config::default();
    assert!(config.validate().is_ok());
}

#[test]
fn test_default_config_strings() {
    let config = Config::default();
    assert_eq!(config.s3.bucket, "default-bucket");
    assert_eq!(config.s3.key_prefix, "uploads");
    assert_eq!(config.s3.region, "us-east-1");
    assert_eq!(config.server.host, "0.0.0.0");
    assert_eq!(config.upload.temp_dir, "/tmp");
}

#[test]
fn test_validate_empty_bucket_message() {
    let mut config = Config::default();
    config.s3.bucket = String::new();
    match config.validate() {
        Err(StorageError::ConfigError(m)) => {
            assert_eq!(m, "S3 bucket name cannot be empty");
        }
        other => panic!("expected a configuration error, got {:?}", other),
    }
}

#[test]
fn test_validate_zero_max_file_size() {
    let mut config = Config::default();
    config.upload.max_file_size = 0;
    match config.validate() {
        Err(StorageError::ConfigError(m)) => {
            assert_eq!(m, "Max file size must be greater than 0");
        }
        other => panic!("expected a configuration error, got {:?}", other),
    }
}

#[test]
fn test_validate_zero_port_message() {
    let mut config = Config::default();
    config.server.port = 0;
    match config.validate() {
        Err(StorageError::ConfigError(m)) => {
            assert_eq!(m, "Server port must be greater than 0");
        }
        other => panic!("expected a configuration error, got {:?}", other),
    }
}
