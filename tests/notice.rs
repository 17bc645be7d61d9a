use ncrypt::notice::{NoticeView, WindowMsg};

#[test]
fn default_slot_is_closed() {
    let w = WindowMsg::default();
    assert!(!w.open);
    assert!(!w.loading);
    assert_eq!(w.title, "");
    assert_eq!(w.message, "");
    assert_eq!(w.view(), NoticeView::Hidden);
}

#[test]
fn open_with_msg_shows_message() {
    let mut w = WindowMsg::default();
    w.open_with_msg("Success".to_string(), "done".to_string());
    assert!(w.open);
    assert!(!w.loading);
    assert_eq!(w.title, "Success");
    assert_eq!(w.message, "done");
    assert_eq!(w.view(), NoticeView::Message);
}

#[test]
fn open_with_loading_clears_title() {
    let mut w = WindowMsg::default();
    w.open_with_msg("Old".to_string(), "old".to_string());
    w.open_with_loading("Encrypting...".to_string());
    assert!(w.open);
    assert!(w.loading);
    assert_eq!(w.title, "");
    assert_eq!(w.message, "Encrypting...");
    assert_eq!(w.view(), NoticeView::Loading);
}

#[test]
fn message_after_loading_stops_the_spinner() {
    let mut w = WindowMsg::default();
    w.open_with_loading("Decrypting...".to_string());
    w.open_with_msg("Failed to decrypt file".to_string(), "bad".to_string());
    assert!(!w.loading);
    assert_eq!(w.view(), NoticeView::Message);
}

#[test]
fn acknowledge_closes_the_slot() {
    let mut w = WindowMsg::default();
    w.open_with_msg("Success".to_string(), "done".to_string());
    w.acknowledge();
    assert!(!w.open);
    assert_eq!(w.message, "done");
    assert_eq!(w.view(), NoticeView::Hidden);
}

#[test]
fn last_writer_wins() {
    // Worker B finishes first, worker A after it: A's notice is the one shown.
    let mut w = WindowMsg::default();
    w.open_with_loading("Encrypting...".to_string());
    w.open_with_msg("Success".to_string(), "from B".to_string());
    w.open_with_msg("Failed to read file".to_string(), "from A".to_string());
    assert_eq!(w.title, "Failed to read file");
    assert_eq!(w.message, "from A");
    assert_eq!(w.view(), NoticeView::Message);
}
