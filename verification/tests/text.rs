use memenow_storage_service::text::{str_eq, u64_to_dec};

#[test]
fn test_u64_to_dec_values() {
    assert_eq!(u64_to_dec(0), "0");
    assert_eq!(u64_to_dec(7), "7");
    assert_eq!(u64_to_dec(10), "10");
    assert_eq!(u64_to_dec(1_234_567_890), "1234567890");
    assert_eq!(u64_to_dec(u64::MAX), "18446744073709551615");
}

#[test]
fn test_str_eq() {
    assert!(str_eq("us-east-1", "us-east-1"));
    assert!(!str_eq("us-east-1", "eu-west-1"));
    assert!(!str_eq("abc", "abcd"));
    assert!(str_eq("", ""));
}
