use worktree_manager::error::AppError;
use worktree_manager::invocation::GitAction;
use worktree_manager::worktrees::{
    has_changes, main_worktree, removal_step, worktree_listing, LinkedWorktree, RemovalStep,
};

#[test]
fn main_worktree_is_main_and_unlocked() {
    let wt = main_worktree(Some("/repo/".to_string()), Some("main".to_string())).unwrap();
    assert!(wt.is_main);
    assert!(!wt.is_locked);
    assert_eq!(wt.path, "/repo/");
    assert_eq!(wt.branch.as_deref(), Some("main"));
}

#[test]
fn bare_repository_has_no_main_worktree() {
    match main_worktree(None, None) {
        Err(AppError::InvalidPath(m)) => assert_eq!(m, "Repository has no working directory"),
        other => panic!("unexpected {:?}", other),
    }
}

#[test]
fn listing_puts_main_first() {
    let main = main_worktree(Some("/repo/".to_string()), Some("main".to_string())).unwrap();
    let linked = vec![
        LinkedWorktree {
            path: "/feature-worktree".to_string(),
            branch: Some("feature-branch".to_string()),
            is_locked: true,
        },
        LinkedWorktree { path: "/detached".to_string(), branch: None, is_locked: false },
    ];
    let all = worktree_listing(main, &linked);
    assert_eq!(all.len(), 3);
    assert!(all[0].is_main);
    assert!(!all[1].is_main && !all[2].is_main);
    assert_eq!(all[1].branch.as_deref(), Some("feature-branch"));
    assert!(all[1].is_locked);
    assert_eq!(all[2].path, "/detached");
    assert!(all[2].branch.is_none());
}

#[test]
fn listing_of_main_only() {
    let main = main_worktree(Some("/repo/".to_string()), None).unwrap();
    let all = worktree_listing(main, &vec![]);
    assert_eq!(all.len(), 1);
    assert!(all[0].is_main);
}

#[test]
fn test_remove_worktree_not_found() {
    let known = vec!["/tmp/a".to_string()];
    let result = removal_step("/nonexistent/worktree", &known, false, None);
    assert!(matches!(result, Err(AppError::WorktreeNotFound(_))));
}

#[test]
fn removal_asks_for_changes_then_refuses_dirty() {
    let known = vec!["/tmp/a".to_string(), "/tmp/worktree-dirty".to_string()];
    assert!(matches!(
        removal_step("/tmp/worktree-dirty", &known, false, None),
        Ok(RemovalStep::CheckChanges)
    ));
    assert!(matches!(
        removal_step("/tmp/worktree-dirty", &known, false, Some(true)),
        Err(AppError::UncommittedChanges)
    ));
}

#[test]
fn clean_or_forced_removal_runs_git() {
    let known = vec!["/tmp/wt".to_string()];
    match removal_step("/tmp/wt", &known, false, Some(false)) {
        Ok(RemovalStep::Run(GitAction::RemoveWorktree { worktree_path, force })) => {
            assert_eq!(worktree_path, "/tmp/wt");
            assert!(!force);
        }
        other => panic!("unexpected {:?}", other),
    }
    match removal_step("/tmp/wt", &known, true, None) {
        Ok(RemovalStep::Run(GitAction::RemoveWorktree { force, .. })) => assert!(force),
        other => panic!("unexpected {:?}", other),
    }
}

#[test]
fn unknown_worktree_is_refused_even_with_force() {
    match removal_step("/tmp/wt2", &vec!["/tmp/wt".to_string()], true, Some(false)) {
        Err(AppError::WorktreeNotFound(p)) => assert_eq!(p, "/tmp/wt2"),
        other => panic!("unexpected {:?}", other),
    }
}

#[test]
fn any_status_entry_is_a_change() {
    assert!(!has_changes(0));
    assert!(has_changes(1));
    assert!(has_changes(42));
}
