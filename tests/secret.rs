use ncrypt::secret::SecureValue;

fn text_of(v: &SecureValue) -> String {
    v.with_ref(|t| t.to_string())
}

#[test]
fn with_capacity_starts_empty() {
    let v = SecureValue::with_capacity(16).unwrap();
    assert!(v.is_empty());
    assert!(!v.is_erased());
    assert_eq!(text_of(&v), "");
}

#[test]
fn from_text_holds_the_text() {
    let v = SecureValue::from_text("hunter2").unwrap();
    assert!(!v.is_empty());
    assert_eq!(text_of(&v), "hunter2");
    assert_eq!(v.with_ref(|t| t.len()), 7);
}

#[test]
fn push_text_appends() {
    let mut v = SecureValue::from_text("pass").unwrap();
    v.push_text("word");
    assert_eq!(text_of(&v), "password");
}

#[test]
fn erase_leaves_the_value_empty() {
    let mut v = SecureValue::from_text("top secret value").unwrap();
    v.erase();
    assert!(v.is_erased());
    assert!(v.is_empty());
    assert_eq!(v.with_ref(|t| t.len()), 0);
    assert_eq!(text_of(&v), "");
}

#[test]
fn erase_of_empty_value() {
    let mut v = SecureValue::with_capacity(0).unwrap();
    v.erase();
    assert!(v.is_empty());
    assert!(v.is_erased());
}

#[test]
fn erase_twice_is_a_no_op() {
    let mut v = SecureValue::from_text("abc").unwrap();
    v.erase();
    let after_first = text_of(&v);
    v.erase();
    assert_eq!(text_of(&v), after_first);
    assert!(v.is_erased());
    assert!(v.is_empty());
}

#[test]
fn push_after_erase_clears_the_mark() {
    let mut v = SecureValue::from_text("old").unwrap();
    v.erase();
    v.push_text("new");
    assert!(!v.is_erased());
    assert_eq!(text_of(&v), "new");
}

#[test]
fn erasing_a_clone_keeps_the_original() {
    let original = SecureValue::from_text("shared").unwrap();
    let mut copy = original.clone();
    assert_eq!(text_of(&copy), "shared");
    copy.erase();
    assert!(copy.is_empty());
    assert_eq!(text_of(&original), "shared");
    assert!(!original.is_erased());
}

#[test]
fn non_ascii_text_round_trips() {
    let v = SecureValue::from_text("pässwörd").unwrap();
    assert_eq!(text_of(&v), "pässwörd");
    assert_eq!(v.with_ref(|t| t.len()), 10);
}

#[test]
fn with_mut_returns_the_closure_result() {
    let mut v = SecureValue::from_text("abc").unwrap();
    let n = v.with_mut(|s| {
        s.push_str("def");
        s.byte_len()
    });
    assert_eq!(n, 6);
    assert_eq!(text_of(&v), "abcdef");
    assert!(!v.is_erased());
}
