use worktree_manager::text::contains_text;

#[test]
fn finds_text_anywhere() {
    assert!(contains_text("fatal: already checked out at", "already checked out"));
    assert!(contains_text("already checked out", "already checked out"));
    assert!(contains_text("xx out", "out"));
}

#[test]
fn empty_needle_is_always_found() {
    assert!(contains_text("", ""));
    assert!(contains_text("abc", ""));
}

#[test]
fn missing_or_longer_text_is_not_found() {
    assert!(!contains_text("already checked", "already checked out"));
    assert!(!contains_text("", "a"));
    assert!(!contains_text("Already Checked Out", "already checked out"));
}

#[test]
fn non_ascii_text() {
    assert!(contains_text("déjà vu", "jà"));
    assert!(!contains_text("déjà vu", "ja"));
}
