use timeturner::network::{shown_addresses, Address};
use timeturner::text::join;

#[test]
fn loopback_addresses() {
    assert!(Address::V4([127, 0, 0, 1]).is_loopback());
    assert!(Address::V4([127, 200, 3, 4]).is_loopback());
    assert!(!Address::V4([128, 0, 0, 1]).is_loopback());
    assert!(!Address::V4([1, 127, 0, 1]).is_loopback());
    assert!(Address::V6([0, 0, 0, 0, 0, 0, 0, 1]).is_loopback());
    assert!(!Address::V6([0, 0, 0, 0, 0, 0, 0, 0]).is_loopback());
    assert!(!Address::V6([1, 0, 0, 0, 0, 0, 0, 1]).is_loopback());
}

#[test]
fn address_texts() {
    assert_eq!(Address::V4([192, 168, 0, 17]).ip_text(), "192.168.0.17");
    assert_eq!(Address::V4([0, 0, 0, 0]).ip_text(), "0.0.0.0");
    let segments = [0x2001, 0xdb8, 0, 0, 0, 0, 0, 0x12];
    assert_eq!(Address::V6(segments).ip_text(), "2001:db8::12");
}

#[test]
fn loopback_is_not_shown() {
    let addresses = vec![
        Address::V4([127, 0, 0, 1]),
        Address::V4([10, 0, 0, 2]),
        Address::V6([0, 0, 0, 0, 0, 0, 0, 1]),
        Address::V6([0xfd00, 0, 0, 0, 0, 0, 0, 5]),
        Address::V4([10, 0, 0, 2]),
    ];
    assert_eq!(shown_addresses(&addresses), vec!["10.0.0.2", "fd00::5", "10.0.0.2"]);
    assert!(shown_addresses(&Vec::new()).is_empty());
}

#[test]
fn joining() {
    let words: Vec<String> = ["a", "", "b c"].iter().map(|s| s.to_string()).collect();
    assert_eq!(join(&words, ", "), "a, , b c");
    assert_eq!(join(&words[..1].to_vec(), ", "), "a");
    assert_eq!(join(&Vec::new(), ", "), "");
}
