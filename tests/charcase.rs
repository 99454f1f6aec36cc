use seqrs::charcase::{is_lower, is_upper, to_lower, to_upper};
use seqrs::utils::char_to_byte;

#[test]
fn test_is_lower() {
    assert!(is_lower(b'a'));
    assert!(is_lower(b'z'));
    assert!(is_lower(b'j'));
    assert!(!is_lower(b'A'));
    assert!(!is_lower(b'J'));
    assert!(!is_lower(b'Z'));
}

#[test]
fn test_is_upper() {
    assert!(!is_upper(b'a'));
    assert!(!is_upper(b'z'));
    assert!(!is_upper(b'j'));
    assert!(is_upper(b'A'));
    assert!(is_upper(b'J'));
    assert!(is_upper(b'Z'));
}

#[test]
fn test_to_upper() {
    assert_eq!(to_upper(b'a'), b'A');
    assert_eq!(to_upper(b'A'), b'A');
    assert_eq!(to_upper(b'z'), b'Z');
    assert_eq!(to_upper(b'Z'), b'Z');
    assert_eq!(to_upper(b'j'), b'J');
    assert_eq!(to_upper(b'J'), b'J');
}

#[test]
fn test_to_lower() {
    assert_eq!(to_lower(b'a'), b'a');
    assert_eq!(to_lower(b'A'), b'a');
    assert_eq!(to_lower(b'z'), b'z');
    assert_eq!(to_lower(b'Z'), b'z');
    assert_eq!(to_lower(b'j'), b'j');
    assert_eq!(to_lower(b'J'), b'j');
}

#[test]
fn case_leaves_other_bytes() {
    assert_eq!(to_upper(b'-'), b'-');
    assert_eq!(to_lower(b'*'), b'*');
    assert_eq!(to_upper(b'{'), b'{');
    assert_eq!(to_lower(b'@'), b'@');
}

#[test]
fn chars_narrow_to_bytes() {
    assert_eq!(char_to_byte(&'A'), Ok(b'A'));
    assert_eq!(char_to_byte(&'\u{ff}'), Ok(255));
    assert!(char_to_byte(&'\u{100}').is_err());
}
