use proton_downloader::digest::{digest, digest_matches, hex_encode};

const EMPTY_SHA512: &str = "cf83e1357eefb8bdf1542850d66d8007d620e4050b5715dc83f4a921d36ce9ce47d0d13c5d85f2b0ff8318d2877eec2f63b931bd47417a81a538327af927da3e";
const ABC_SHA512: &str = "ddaf35a193617abacc417349ae20413112e6fa4e89a97ea20a9eeee64b55d39a2192992a274fc1a836ba3c23a3feebbd454d4423643ce80e2a9ac94fa54ca49f";

#[test]
fn digest_of_empty_input() {
    assert_eq!(digest(&[]), EMPTY_SHA512);
}

#[test]
fn digest_of_abc() {
    assert_eq!(digest(b"abc"), ABC_SHA512);
}

#[test]
fn digest_is_deterministic_and_shaped() {
    let data: Vec<u8> = (0..1000u32).map(|i| (i % 251) as u8).collect();
    let a = digest(&data);
    let b = digest(&data);
    assert_eq!(a, b);
    assert_eq!(a.len(), 128);
    assert!(a.chars().all(|c| c.is_ascii_digit() || ('a'..='f').contains(&c)));
    assert_ne!(a, digest(&data[1..]));
}

#[test]
fn hex_encode_renders_two_lowercase_digits_per_byte() {
    assert_eq!(hex_encode(&[0x00, 0xff, 0x1a, 0x9c]), "00ff1a9c");
    assert_eq!(hex_encode(&[]), "");
}

#[test]
fn digest_comparison_ignores_ascii_case_only() {
    assert!(digest_matches("00ff1a", "00FF1A"));
    assert!(digest_matches("00ff1a", "00ff1a"));
    assert!(!digest_matches("00ff1a", "00ff1"));
    assert!(!digest_matches("00ff1a", "00ff1a "));
    assert!(!digest_matches("00ff1a", "00ff1b"));
    assert!(!digest_matches("", "0"));
    assert!(digest_matches("", ""));
}
