use cranelift_bump::git::Git;
use cranelift_bump::hg::HG;
use cranelift_bump::vcs::{get_vcs_for_repo, VcsKind};
use cranelift_bump::BumpError;

#[test]
fn detection_prefers_mercurial_when_both_markers_exist() {
    // The precedence order is a deliberate tie-break: the mercurial-like
    // marker is probed first, every time.
    for _ in 0..3 {
        assert_eq!(get_vcs_for_repo("/r", true, true).unwrap(), VcsKind::Hg);
    }
}

#[test]
fn detection_by_single_marker() {
    assert_eq!(get_vcs_for_repo("/r", true, false).unwrap(), VcsKind::Hg);
    assert_eq!(get_vcs_for_repo("/r", false, true).unwrap(), VcsKind::Git);
}

#[test]
fn detection_fails_without_markers() {
    let err = get_vcs_for_repo("/some/dir", false, false).unwrap_err();
    match err {
        BumpError::Precondition(m) => {
            assert_eq!(m, "Not a git or Mercurial repository: /some/dir");
        }
        other => panic!("expected a precondition error, got {:?}", other),
    }
}

#[test]
fn git_command_shapes() {
    let g = Git::new();
    assert_eq!(g.marker_dir(), ".git");
    assert_eq!(g.program(), "git");
    assert_eq!(g.diff_args(), vec!["diff".to_string()]);
    assert_eq!(
        g.commit_args("a message"),
        vec!["commit".to_string(), "-am".to_string(), "a message".to_string()]
    );
}

#[test]
fn hg_command_shapes() {
    let h = HG::new();
    assert_eq!(h.marker_dir(), ".hg");
    assert_eq!(h.program(), "hg");
    assert_eq!(h.diff_args(), vec!["diff".to_string()]);
    assert_eq!(
        h.commit_args("a message"),
        vec!["commit".to_string(), "-m".to_string(), "a message".to_string()]
    );
}

#[test]
fn diff_outcome_is_output_nonempty() {
    let g = Git::new();
    assert!(!g.has_diff_outcome(&Vec::new()));
    assert!(g.has_diff_outcome(&b"diff --git a b\n".to_vec()));
    let h = HG::new();
    assert!(!h.has_diff_outcome(&Vec::new()));
    assert!(h.has_diff_outcome(&b"diff -r 000 f\n".to_vec()));
}

#[test]
fn git_commit_twice_succeeds_both_times() {
    let g = Git::new();
    // First run: the commit is created and the process exits successfully.
    assert!(g.commit_outcome(true, "", "").is_ok());
    // Second run with no intervening changes: git exits non-zero but its
    // output carries the sentinel, which is a no-op, not an error.
    let second = g.commit_outcome(
        false,
        "On branch default\nnothing to commit, working tree clean\n",
        "",
    );
    assert!(second.is_ok());
}

#[test]
fn git_commit_failure_keeps_both_streams() {
    let g = Git::new();
    let err = g.commit_outcome(false, "fatal: not possible", "bad object").unwrap_err();
    match err {
        BumpError::Process(m) => {
            assert_eq!(m, "git commit returned an error: fatal: not possible bad object");
        }
        other => panic!("expected a process error, got {:?}", other),
    }
}

#[test]
fn hg_commit_twice_succeeds_both_times() {
    let h = HG::new();
    assert!(h.commit_outcome(true, "", "").is_ok());
    let second = h.commit_outcome(false, "nothing changed\n", "");
    assert!(second.is_ok());
}

#[test]
fn hg_sentinel_must_match_exactly_after_trimming() {
    let h = HG::new();
    // The mercurial sentinel is an exact match of the trimmed output, not
    // a substring search.
    let err = h.commit_outcome(false, "nothing changed locally\n", "").unwrap_err();
    match err {
        BumpError::Process(m) => {
            assert_eq!(m, "hg commit returned an error: nothing changed locally\n ");
        }
        other => panic!("expected a process error, got {:?}", other),
    }
}

#[test]
fn kind_dispatch_matches_backends() {
    assert_eq!(VcsKind::Hg.marker_dir(), ".hg");
    assert_eq!(VcsKind::Git.marker_dir(), ".git");
    assert_eq!(VcsKind::Hg.program(), "hg");
    assert_eq!(VcsKind::Git.program(), "git");
    assert_eq!(
        VcsKind::Git.commit_args("m"),
        vec!["commit".to_string(), "-am".to_string(), "m".to_string()]
    );
    assert_eq!(
        VcsKind::Hg.commit_args("m"),
        vec!["commit".to_string(), "-m".to_string(), "m".to_string()]
    );
    assert!(VcsKind::Git
        .commit_outcome(false, "nothing to commit, working tree clean", "")
        .is_ok());
    assert!(VcsKind::Hg.commit_outcome(false, " nothing changed ", "").is_ok());
    assert!(VcsKind::Hg.commit_outcome(false, "nothing to commit", "").is_err());
}
