use xcap_sck::is_supported;
use xcap_sck::str_contains;
use xcap_sck::u32_to_decimal;

#[test]
fn test_is_supported() {
    // The composition service this library plans for is always present on
    // supported systems
    assert!(is_supported());
}

#[test]
fn test_u32_to_decimal() {
    assert_eq!(u32_to_decimal(0), "0");
    assert_eq!(u32_to_decimal(7), "7");
    assert_eq!(u32_to_decimal(10), "10");
    assert_eq!(u32_to_decimal(305), "305");
    assert_eq!(u32_to_decimal(4294967295), "4294967295");
}

#[test]
fn test_str_contains() {
    assert!(str_contains("permission was refused", "permission"));
    assert!(str_contains("abc", "abc"));
    assert!(str_contains("abc", ""));
    assert!(str_contains("", ""));
    assert!(str_contains("aab", "ab"));
    assert!(!str_contains("", "a"));
    assert!(!str_contains("abc", "abcd"));
    assert!(!str_contains("denie", "denied"));
    assert!(str_contains("code -3801 returned", "-3801"));
}
