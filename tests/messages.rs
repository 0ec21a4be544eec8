use autosync::messages::{auto_commit_message, merge_commit_message, Timestamp};
use autosync::raw_git::{interpret_decoded, interpret_output, BinRepository, GitError, GitOutput};

#[test]
fn auto_commit_message_is_zero_padded() {
    let t = Timestamp::new(2024, 3, 5, 7, 8, 9).unwrap();
    assert_eq!(auto_commit_message(&t), "Auto-Commit at: 2024-03-05 07:08:09");
    let t = Timestamp::new(42, 12, 31, 23, 59, 59).unwrap();
    assert_eq!(auto_commit_message(&t), "Auto-Commit at: 0042-12-31 23:59:59");
}

#[test]
fn timestamps_out_of_range_are_refused() {
    assert!(Timestamp::new(2024, 13, 1, 0, 0, 0).is_none());
    assert!(Timestamp::new(2024, 1, 0, 0, 0, 0).is_none());
    assert!(Timestamp::new(2024, 1, 1, 24, 0, 0).is_none());
    assert!(Timestamp::new(2024, 1, 1, 0, 60, 0).is_none());
    assert!(Timestamp::new(2024, 1, 1, 0, 0, 60).is_none());
    assert!(Timestamp::new(-1, 1, 1, 0, 0, 0).is_none());
    assert!(Timestamp::new(10000, 1, 1, 0, 0, 0).is_none());
    assert!(Timestamp::new(0, 1, 1, 0, 0, 0).is_some());
}

#[test]
fn messages_follow_the_pattern() {
    for (y, mo, d, h, mi, sec) in [(0, 1, 1, 0, 0, 0), (9999, 12, 31, 23, 59, 59), (1970, 6, 15, 12, 5, 0)] {
        let m = auto_commit_message(&Timestamp::new(y, mo, d, h, mi, sec).unwrap());
        check_pattern(&m);
    }
}

fn check_pattern(m: &str) {
    assert!(m.starts_with("Auto-Commit at: "));
    let stamp: Vec<char> = m["Auto-Commit at: ".len()..].chars().collect();
    assert_eq!(stamp.len(), 19);
    for (k, c) in stamp.iter().enumerate() {
        match k {
            4 | 7 => assert_eq!(*c, '-'),
            10 => assert_eq!(*c, ' '),
            13 | 16 => assert_eq!(*c, ':'),
            _ => assert!(c.is_ascii_digit()),
        }
    }
}

#[test]
fn merge_message_names_both_tips() {
    assert_eq!(merge_commit_message("abc123", "def456"), "Merge: abc123 into def456");
}

#[test]
fn pull_runs_in_the_checkout() {
    let r = BinRepository::new("/tmp/acp");
    assert_eq!(r.location(), "/tmp/acp");
    let c = r.pull_merge("origin", "master");
    assert_eq!(c.dir, "/tmp/acp");
    assert_eq!(c.args, vec!["pull".to_string(), "origin".to_string(), "master".to_string()]);
}

#[test]
fn output_of_a_process_that_did_not_start() {
    assert!(matches!(interpret_output(&None), Err(GitError::Execution)));
}

#[test]
fn output_of_a_successful_run_is_its_stdout() {
    let o = GitOutput { success: true, stdout: b"Already up to date.\n".to_vec(), stderr: vec![] };
    assert_eq!(interpret_output(&Some(o)).unwrap(), "Already up to date.\n");
    let o = GitOutput { success: true, stdout: vec![0xff, 0xfe], stderr: vec![] };
    assert!(matches!(interpret_output(&Some(o)), Err(GitError::Undecodable)));
}

#[test]
fn output_of_a_failed_run_carries_both_streams() {
    let o = GitOutput { success: false, stdout: b"out".to_vec(), stderr: b"fatal: no remote".to_vec() };
    match interpret_output(&Some(o)) {
        Err(GitError::GitError { stdout, stderr }) => {
            assert_eq!(stdout, "out");
            assert_eq!(stderr, "fatal: no remote");
        }
        other => panic!("unexpected {:?}", other),
    }
    let o = GitOutput { success: false, stdout: vec![], stderr: vec![0xc3] };
    assert!(matches!(interpret_output(&Some(o)), Err(GitError::Undecodable)));
}

#[test]
fn fetch_runs_in_the_checkout() {
    let c = BinRepository::new("/tmp/acp").fetch("origin", "master");
    assert_eq!(c.dir, "/tmp/acp");
    assert_eq!(c.args, vec!["fetch".to_string(), "origin".to_string(), "master".to_string()]);
}

#[test]
fn decoded_output_is_interpreted() {
    assert_eq!(interpret_decoded(true, Some("ok".to_string()), None).unwrap(), "ok");
    assert!(matches!(interpret_decoded(true, None, Some(String::new())), Err(GitError::Undecodable)));
    match interpret_decoded(false, Some("o".to_string()), Some("e".to_string())) {
        Err(GitError::GitError { stdout, stderr }) => {
            assert_eq!(stdout, "o");
            assert_eq!(stderr, "e");
        }
        other => panic!("unexpected {:?}", other),
    }
    assert!(matches!(interpret_decoded(false, Some("o".to_string()), None), Err(GitError::Undecodable)));
    assert!(matches!(interpret_decoded(false, None, Some("e".to_string())), Err(GitError::Undecodable)));
}
