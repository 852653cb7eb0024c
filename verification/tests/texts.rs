use preflight::text::{chars_of, contains, push_decimal, trim_0x, trim_trailing_slashes};
use preflight::types::{has_hash, same_hash, U256};

fn decimal_text(n: u64) -> String {
    let mut text = String::from("n=");
    push_decimal(&mut text, n);
    text
}

#[test]
fn numbers_are_written_in_decimal() {
    assert_eq!(decimal_text(0), "n=0");
    assert_eq!(decimal_text(7), "n=7");
    assert_eq!(decimal_text(10), "n=10");
    assert_eq!(decimal_text(1234567890), "n=1234567890");
    assert_eq!(decimal_text(u64::MAX), "n=18446744073709551615");
}

#[test]
fn different_numbers_are_written_differently() {
    for a in 0..120u64 {
        for b in 0..120u64 {
            assert_eq!(decimal_text(a) == decimal_text(b), a == b);
        }
    }
}

#[test]
fn characters_come_in_order() {
    assert_eq!(chars_of("a/\u{e9}"), vec!['a', '/', '\u{e9}']);
    assert_eq!(chars_of(""), Vec::<char>::new());
}

#[test]
fn text_within_text() {
    assert!(contains("https://api.blobscan.com", "blobscan.com"));
    assert!(contains("blobscan.com/", "blobscan.com"));
    assert!(contains("blobscan.com", "blobscan.com"));
    assert!(contains("blobblobscan.com", "blobscan.com"));
    assert!(!contains("blobscan.co", "blobscan.com"));
    assert!(!contains("blobscan-com", "blobscan.com"));
    assert!(!contains("", "blobscan.com"));
    assert!(contains("", ""));
}

#[test]
fn trailing_slashes_go() {
    assert_eq!(trim_trailing_slashes("http://node"), "http://node");
    assert_eq!(trim_trailing_slashes("http://node/"), "http://node");
    assert_eq!(trim_trailing_slashes("http://node///"), "http://node");
    assert_eq!(trim_trailing_slashes("///"), "");
    assert_eq!(trim_trailing_slashes("/n"), "/n");
}

#[test]
fn every_leading_0x_goes() {
    assert_eq!(trim_0x("0xab"), "ab");
    assert_eq!(trim_0x("0x0xab"), "ab");
    assert_eq!(trim_0x("ab"), "ab");
    assert_eq!(trim_0x("0x"), "");
    assert_eq!(trim_0x("0"), "0");
    assert_eq!(trim_0x("0Xab"), "0Xab");
}

#[test]
fn hashes_are_compared_in_full() {
    let a = [7u8; 32];
    let mut b = a;
    assert!(same_hash(&a, &b));
    b[31] = 8;
    assert!(!same_hash(&a, &b));
    assert!(has_hash(&vec![b, a], &a));
    assert!(!has_hash(&vec![b], &a));
    assert!(!has_hash(&vec![], &a));
}

#[test]
fn wide_numbers_are_compared_in_full() {
    let five = U256::from_u64(5);
    assert_eq!(five, U256 { limbs: [5, 0, 0, 0] });
    assert!(five.equals(&U256 { limbs: [5, 0, 0, 0] }));
    assert!(!five.equals(&U256 { limbs: [5, 0, 0, 1] }));
    assert!(!five.equals(&U256 { limbs: [4, 0, 0, 0] }));
}
