use github_backup::args::{token_from_file_contents, Args, TokenSource};
use github_backup::records::{EntryKind, EntryWithMetadata};
use github_backup::text::{decimal_string, failures_warning};

#[test]
fn decimal_notation() {
    assert_eq!(decimal_string(0), "0");
    assert_eq!(decimal_string(7), "7");
    assert_eq!(decimal_string(1234567), "1234567");
    assert_eq!(decimal_string(u64::MAX), u64::MAX.to_string());
}

#[test]
fn warning_lists_issues_and_pulls() {
    assert_eq!(failures_warning(&[3, 4], &[9]), "Failed to fetch issues 3, 4 and PRs 9");
    assert_eq!(failures_warning(&[3], &[]), "Failed to fetch issues 3");
    assert_eq!(failures_warning(&[], &[9, 10]), "Failed to fetch PRs 9, 10");
}

#[test]
fn kind_directories() {
    assert_eq!(EntryKind::Issue.directory(), "issues");
    assert_eq!(EntryKind::Pull.directory(), "pulls");
}

#[test]
fn pull_assembly_fails_on_first_failed_fetch() {
    let r = EntryWithMetadata::assemble_pull::<&str>(9, Err("body"), Err("events"), Ok(Vec::new()));
    assert!(matches!(r, Err("body")));
    let r = EntryWithMetadata::assemble_issue::<&str>(3, Err("issue"), Ok(Vec::new()));
    assert!(matches!(r, Err("issue")));
}

fn args(direct: Option<&str>, file: Option<&str>) -> Args {
    Args {
        owner: "o".to_string(),
        repo: "r".to_string(),
        personal_access_token: direct.map(|s| s.to_string()),
        personal_access_token_file: file.map(|s| s.to_string()),
        destination: "/tmp/backup".to_string(),
    }
}

#[test]
fn direct_token_wins() {
    assert!(matches!(args(Some("tok123"), Some("f")).token_source(), TokenSource::Direct(t) if t == "tok123"));
    assert!(matches!(args(None, Some("f")).token_source(), TokenSource::File(f) if f == "f"));
    assert!(matches!(args(None, None).token_source(), TokenSource::Missing));
}

#[test]
fn token_file_contents_are_trimmed() {
    assert_eq!(token_from_file_contents("  abc \n"), "abc");
    assert_eq!(token_from_file_contents("abc"), "abc");
}
