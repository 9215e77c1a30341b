use agentgateway::hash::{content_hash, digest_text};
use sha2::Digest;

#[test]
fn content_hash_of_known_texts() {
    assert_eq!(
        content_hash(""),
        "sha256:e3b0c44298fc1c149afbf4c8996fb92427ae41e4649b934ca495991b7852b855"
    );
    assert_eq!(
        content_hash("abc"),
        "sha256:ba7816bf8f01cfea414140de5dae2223b00361a396177a9cb410ff61f20015ad"
    );
}

#[test]
fn content_hash_takes_utf8_bytes() {
    let text = "name: gr\u{fc}n \u{1f980}";
    let digest = sha2::Sha256::digest(text.as_bytes());
    assert_eq!(content_hash(text), digest_text(&digest));
    assert_eq!(content_hash(text).chars().count(), 71);
}

#[test]
fn digest_text_writes_two_lower_case_digits_per_byte() {
    assert_eq!(digest_text(&[]), "sha256:");
    assert_eq!(digest_text(&[0x00, 0x0f, 0xf0, 0x9a, 0xff]), "sha256:000ff09aff");
}

#[test]
fn digests_that_differ_give_hashes_that_differ() {
    assert_ne!(digest_text(&[0x01]), digest_text(&[0x10]));
    assert_ne!(digest_text(&[0x01]), digest_text(&[0x01, 0x00]));
    assert_ne!(content_hash("a: 1\n"), content_hash("a: 1"));
}
