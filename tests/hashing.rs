use ncrypt::hashing::{digest, hash_text, hex_text, HashAlgorithm};
use ncrypt::secret::SecureValue;
use ncrypt::text_hashing::TextHashingUi;

const SHA3_224_ABC: &str = "e642824c3f8cf24ad09234ee7d3c766fc9a3a5168d0c94ad73b46fdf";
const SHA3_256_ABC: &str = "3a985da74fe225b2045c172d6bd390bd855f086e3e9d525b46bfe24511431532";
const SHA3_384_ABC: &str = "ec01498288516fc926459f58e2c6ad8df9b473cb0fc08c2596da7cf0e49be4b298d88cea927ac7f539f1edf228376d25";
const SHA3_512_ABC: &str = "b751850b1a57168a5693cd924b6b096e08f621827444f70d884f5d0240d2712e10e116e9192af3c91a7ec57647e3934057340b4cf408d5a56592f8274eec53f0";

fn text_of(v: &SecureValue) -> String {
    v.with_ref(|t| t.to_string())
}

#[test]
fn algorithm_names() {
    assert_eq!(HashAlgorithm::Sha3_224.to_string(), "SHA3-224");
    assert_eq!(HashAlgorithm::Sha3_256.to_string(), "SHA3-256");
    assert_eq!(HashAlgorithm::Sha3_384.to_string(), "SHA3-384");
    assert_eq!(HashAlgorithm::Sha3_512.to_string(), "SHA3-512");
}

#[test]
fn algorithms_in_offered_order() {
    let all = HashAlgorithm::Sha3_512.to_vec();
    assert_eq!(
        all,
        vec![
            HashAlgorithm::Sha3_224,
            HashAlgorithm::Sha3_256,
            HashAlgorithm::Sha3_384,
            HashAlgorithm::Sha3_512
        ]
    );
}

#[test]
fn hex_text_two_digits_per_byte() {
    assert_eq!(hex_text(&[0x00, 0x0f, 0xab, 0xff, 0x10]), "000fabff10");
    assert_eq!(hex_text(&[]), "");
}

#[test]
fn digest_lengths() {
    assert_eq!(digest(HashAlgorithm::Sha3_224, b"abc").len(), 28);
    assert_eq!(digest(HashAlgorithm::Sha3_256, b"abc").len(), 32);
    assert_eq!(digest(HashAlgorithm::Sha3_384, b"abc").len(), 48);
    assert_eq!(digest(HashAlgorithm::Sha3_512, b"abc").len(), 64);
}

#[test]
fn published_vectors_for_abc() {
    assert_eq!(hash_text(HashAlgorithm::Sha3_224, "abc"), SHA3_224_ABC);
    assert_eq!(hash_text(HashAlgorithm::Sha3_256, "abc"), SHA3_256_ABC);
    assert_eq!(hash_text(HashAlgorithm::Sha3_384, "abc"), SHA3_384_ABC);
    assert_eq!(hash_text(HashAlgorithm::Sha3_512, "abc"), SHA3_512_ABC);
}

#[test]
fn hash_of_empty_text() {
    assert_eq!(
        hash_text(HashAlgorithm::Sha3_224, ""),
        "6b4e03423667dbb73b6e15454f0eb1abd4597f9a1b078e3f5b5a6bc7"
    );
}

#[test]
fn hash_uses_utf8_bytes() {
    assert_eq!(
        hash_text(HashAlgorithm::Sha3_256, "héllo"),
        "af9db8307521b5e3d5549adcb8d6197a378902789c1649a9adb2c559c54943ac"
    );
}

#[test]
fn panel_starts_closed_with_sha3_224() {
    let ui = TextHashingUi::new(1024).unwrap();
    assert!(!ui.open);
    assert_eq!(ui.algorithm, HashAlgorithm::Sha3_224);
    assert!(ui.input_text.is_empty());
    assert!(ui.output_hash.is_empty());
}

#[test]
fn hashing_abc_fills_output() {
    let mut ui = TextHashingUi::new(1024).unwrap();
    ui.input_text.push_text("abc");
    ui.input_edited().unwrap();
    assert_eq!(text_of(&ui.output_hash), SHA3_224_ABC);
    assert_eq!(text_of(&ui.input_text), "abc");
}

#[test]
fn clearing_input_clears_output() {
    let mut ui = TextHashingUi::new(1024).unwrap();
    ui.input_text.push_text("abc");
    ui.input_edited().unwrap();
    assert!(!ui.output_hash.is_empty());
    ui.input_text.erase();
    ui.input_edited().unwrap();
    assert!(ui.output_hash.is_empty());
    assert!(ui.output_hash.is_erased());
}

#[test]
fn empty_input_leaves_output_empty() {
    let mut ui = TextHashingUi::new(1024).unwrap();
    ui.calculate_hash().unwrap();
    assert!(ui.output_hash.is_empty());
    ui.input_edited().unwrap();
    assert!(ui.output_hash.is_empty());
}

#[test]
fn calculate_hash_on_empty_input_keeps_output() {
    let mut ui = TextHashingUi::new(1024).unwrap();
    ui.output_hash.push_text("stale");
    ui.calculate_hash().unwrap();
    assert_eq!(text_of(&ui.output_hash), "stale");
}

#[test]
fn selecting_an_algorithm_hashes_again() {
    let mut ui = TextHashingUi::new(1024).unwrap();
    ui.input_text.push_text("abc");
    ui.input_edited().unwrap();
    ui.select_algorithm(HashAlgorithm::Sha3_256).unwrap();
    assert_eq!(ui.algorithm, HashAlgorithm::Sha3_256);
    assert_eq!(text_of(&ui.output_hash), SHA3_256_ABC);
    ui.select_algorithm(HashAlgorithm::Sha3_512).unwrap();
    assert_eq!(text_of(&ui.output_hash), SHA3_512_ABC);
}

#[test]
fn panel_erase_clears_input_and_output() {
    let mut ui = TextHashingUi::new(1024).unwrap();
    ui.input_text.push_text("abc");
    ui.input_edited().unwrap();
    ui.erase();
    assert!(ui.input_text.is_empty() && ui.input_text.is_erased());
    assert!(ui.output_hash.is_empty() && ui.output_hash.is_erased());
}

#[test]
fn output_length_is_two_digits_per_digest_byte() {
    let mut ui = TextHashingUi::new(1024).unwrap();
    ui.input_text.push_text("some text");
    for (algorithm, len) in [
        (HashAlgorithm::Sha3_224, 56),
        (HashAlgorithm::Sha3_256, 64),
        (HashAlgorithm::Sha3_384, 96),
        (HashAlgorithm::Sha3_512, 128),
    ] {
        ui.select_algorithm(algorithm).unwrap();
        let out = text_of(&ui.output_hash);
        assert_eq!(out.len(), len);
        assert!(out.chars().all(|c| c.is_ascii_digit() || ('a'..='f').contains(&c)));
    }
}
