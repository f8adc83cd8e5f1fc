use memenow_storage_service::s3::get_s3_url;

#[test]
fn test_get_s3_url_us_east_1() {
    let url = get_s3_url("test-bucket", "path/to/file.jpg", "us-east-1");
    assert_eq!(url, "https://test-bucket.s3.amazonaws.com/path/to/file.jpg");
}

#[test]
fn test_get_s3_url_other_region() {
    let url = get_s3_url("test-bucket", "path/to/file.jpg", "eu-west-1");
    assert_eq!(
        url,
        "https://test-bucket.s3.eu-west-1.amazonaws.com/path/to/file.jpg"
    );
}

#[test]
fn test_get_s3_url_special_characters() {
    let url = get_s3_url("test-bucket", "path/to/file with spaces.jpg", "us-west-2");
    assert!(url.contains("file with spaces.jpg"));
}
