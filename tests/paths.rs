use ncrypt::file_encryption::shown_path;
use ncrypt::paths::{decrypted_path, encrypted_path, strip_first_occurrence, FILE_EXTENSION};

#[test]
fn encryption_appends_the_suffix() {
    assert_eq!(FILE_EXTENSION, ".ncrypt");
    assert_eq!(encrypted_path("/home/a/notes.txt"), "/home/a/notes.txt.ncrypt");
    assert_eq!(encrypted_path(""), ".ncrypt");
}

#[test]
fn decryption_strips_the_suffix() {
    assert_eq!(decrypted_path("/home/a/notes.txt.ncrypt"), "/home/a/notes.txt");
}

#[test]
fn decryption_strips_the_first_occurrence_only() {
    assert_eq!(decrypted_path("x.ncrypt.ncrypt"), "x.ncrypt");
    assert_eq!(decrypted_path("/d.ncrypt/f.ncrypt"), "/d/f.ncrypt");
}

#[test]
fn decryption_without_suffix_keeps_the_path() {
    assert_eq!(decrypted_path("/home/a/notes.txt"), "/home/a/notes.txt");
    assert_eq!(decrypted_path(".ncryp"), ".ncryp");
    assert_eq!(decrypted_path(""), "");
}

#[test]
fn strip_with_non_ascii_and_edge_patterns() {
    assert_eq!(strip_first_occurrence("äbcäbc", "bc"), "ääbc");
    assert_eq!(strip_first_occurrence("abc", ""), "abc");
    assert_eq!(strip_first_occurrence("abc", "abcd"), "abc");
    assert_eq!(strip_first_occurrence("abc", "abc"), "");
}

#[test]
fn short_paths_are_shown_in_full() {
    assert_eq!(shown_path("/tmp/a.txt"), "/tmp/a.txt");
    let fifty = "a".repeat(50);
    assert_eq!(shown_path(&fifty), fifty);
}

#[test]
fn long_paths_are_cut_at_fifty_characters() {
    let long = "b".repeat(60);
    assert_eq!(shown_path(&long), format!("{}...", "b".repeat(50)));
    // 30 two-byte characters: over 50 bytes but under 50 characters.
    let wide = "é".repeat(30);
    assert_eq!(shown_path(&wide), format!("{}...", wide));
}
