use worktree_manager::status::{
    ahead_behind, status_files, status_result, StatusEntry, StatusFlags,
};

fn no_flags() -> StatusFlags {
    StatusFlags {
        index_new: false,
        index_modified: false,
        index_deleted: false,
        index_renamed: false,
        index_typechange: false,
        wt_new: false,
        wt_modified: false,
        wt_deleted: false,
        wt_renamed: false,
        wt_typechange: false,
        conflicted: false,
    }
}

fn entry(path: &str, flags: StatusFlags) -> StatusEntry {
    StatusEntry { path: Some(path.to_string()), flags }
}

#[test]
fn untracked_file_is_unstaged() {
    let flags = StatusFlags { wt_new: true, ..no_flags() };
    let files = status_files(&vec![entry("untracked.txt", flags)]);
    assert_eq!(files.len(), 1);
    assert_eq!(files[0].path, "untracked.txt");
    assert_eq!(files[0].status, "untracked");
    assert!(!files[0].staged);
}

#[test]
fn new_file_in_index_is_added_and_staged() {
    let flags = StatusFlags { index_new: true, ..no_flags() };
    let files = status_files(&vec![entry("staged.txt", flags)]);
    assert_eq!(files.len(), 1);
    assert_eq!(files[0].status, "added");
    assert!(files[0].staged);
}

#[test]
fn staged_and_unstaged_changes_give_two_files() {
    let flags = StatusFlags { index_modified: true, wt_deleted: true, ..no_flags() };
    let files = status_files(&vec![entry("a.rs", flags)]);
    assert_eq!(files.len(), 2);
    assert_eq!((files[0].status.as_str(), files[0].staged), ("modified", true));
    assert_eq!((files[1].status.as_str(), files[1].staged), ("deleted", false));
}

#[test]
fn first_index_flag_wins() {
    let flags = StatusFlags {
        index_deleted: true,
        index_renamed: true,
        index_typechange: true,
        wt_renamed: true,
        wt_typechange: true,
        ..no_flags()
    };
    let files = status_files(&vec![entry("x", flags)]);
    assert_eq!(files.len(), 2);
    assert_eq!(files[0].status, "deleted");
    assert_eq!(files[1].status, "renamed");
}

#[test]
fn type_change_labels() {
    let flags = StatusFlags { index_typechange: true, wt_typechange: true, ..no_flags() };
    let files = status_files(&vec![entry("link", flags)]);
    assert_eq!(files[0].status, "typechange");
    assert_eq!(files[1].status, "typechange");
}

#[test]
fn conflict_comes_last_and_unstaged() {
    let flags = StatusFlags { conflicted: true, wt_modified: true, ..no_flags() };
    let files = status_files(&vec![entry("c.txt", flags)]);
    assert_eq!(files.len(), 2);
    assert_eq!(files[0].status, "modified");
    assert_eq!(files[1].status, "conflicted");
    assert!(!files[1].staged);
}

#[test]
fn entry_without_path_shows_empty_path() {
    let flags = StatusFlags { wt_modified: true, ..no_flags() };
    let files = status_files(&vec![StatusEntry { path: None, flags }]);
    assert_eq!(files[0].path, "");
}

#[test]
fn entry_without_flags_shows_nothing() {
    let files = status_files(&vec![entry("clean", no_flags()), entry("b", StatusFlags { wt_new: true, ..no_flags() })]);
    assert_eq!(files.len(), 1);
    assert_eq!(files[0].path, "b");
}

#[test]
fn clean_status_has_no_files_and_zero_counts() {
    let r = status_result(Some("main".to_string()), &vec![], None);
    assert_eq!(r.branch.as_deref(), Some("main"));
    assert!(r.files.is_empty());
    assert_eq!((r.ahead, r.behind), (0, 0));
}

#[test]
fn counts_are_passed_on() {
    let r = status_result(None, &vec![], Some((3, 7)));
    assert!(r.branch.is_none());
    assert_eq!((r.ahead, r.behind), (3, 7));
}

#[test]
fn counts_are_cut_to_32_bits() {
    let big = (1usize << 32) + 5;
    assert_eq!(ahead_behind(Some((big, 2))), (5, 2));
    assert_eq!(ahead_behind(None), (0, 0));
}
