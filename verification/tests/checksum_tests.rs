use launcher::checksum::{calculate_checksum, checksum_matches};
use launcher::sync::SyncManager;
use launcher::updater::Updater;

const EMPTY: &str = "e3b0c44298fc1c149afbf4c8996fb92427ae41e4649b934ca495991b7852b855";
const ABC: &str = "ba7816bf8f01cfea414140de5dae2223b00361a396177a9cb410ff61f20015ad";
const HELLO: &str = "b94d27b9934d3e08a52e52d7da7dabfac484efe37a5380ee9088f7ace2efcde9";

#[test]
fn checksum_is_lower_hex_sha256() {
    assert_eq!(calculate_checksum(b""), EMPTY);
    assert_eq!(calculate_checksum(b"abc"), ABC);
    assert_eq!(calculate_checksum(b"hello world"), HELLO);
    assert_eq!(SyncManager::calculate_checksum(b"abc"), ABC);
}

#[test]
fn checksum_agrees_with_the_hash_crates() {
    let data: Vec<u8> = (0..=255u8).collect();
    let expected = hex::encode(<sha2::Sha256 as sha2::Digest>::digest(&data));
    assert_eq!(calculate_checksum(&data), expected);
    assert_eq!(expected.len(), 64);
    assert!(expected.chars().all(|c| c.is_ascii_digit() || ('a'..='f').contains(&c)));
}

#[test]
fn checksum_match_is_exact() {
    assert!(checksum_matches(b"abc", ABC));
    assert!(!checksum_matches(b"abd", ABC));
    assert!(!checksum_matches(b"abc", &ABC.to_uppercase()));
    assert!(!checksum_matches(b"abc", &ABC[..63]));
    assert!(!checksum_matches(b"abc", ""));
}

#[test]
fn updater_verifies_against_expected_checksum() {
    assert!(Updater::verify_checksum(b"hello world", HELLO));
    assert!(!Updater::verify_checksum(b"hello world!", HELLO));
    assert!(!Updater::verify_checksum(b"", HELLO));
    assert!(Updater::verify_checksum(b"", EMPTY));
}
