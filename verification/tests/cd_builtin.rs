use vshell::cd::{cd, cd_outcome, CdRequest, ExitStatus};

#[test]
fn cd_with_no_arguments_targets_home_and_exits_zero() {
    let args: Vec<String> = Vec::new();
    let home = Some("/home/user".to_string());
    match cd(&args, &home) {
        CdRequest::Resolve(path) => assert_eq!(path, "/home/user"),
        CdRequest::Fail(st) => panic!("unexpected failure: {st:?}"),
    }
    // The home directory exists and can be entered: exit code 0.
    assert_eq!(cd_outcome(true, true), ExitStatus::Success(0));
    assert_eq!(cd_outcome(true, true).code(), 0);
}

#[test]
fn cd_to_a_missing_path_exits_one() {
    let args = vec!["/nonexistent".to_string()];
    let home = Some("/home/user".to_string());
    match cd(&args, &home) {
        CdRequest::Resolve(path) => assert_eq!(path, "/nonexistent"),
        CdRequest::Fail(st) => panic!("unexpected failure: {st:?}"),
    }
    // Canonicalization fails, nothing else runs: exit code 1.
    assert_eq!(cd_outcome(false, false), ExitStatus::Failed(1));
    assert_eq!(cd_outcome(false, false).code(), 1);
}

#[test]
fn cd_with_two_arguments_fails_before_touching_anything() {
    let args = vec!["a".to_string(), "b".to_string()];
    let home = Some("/home/user".to_string());
    match cd(&args, &home) {
        CdRequest::Fail(st) => assert_eq!(st, ExitStatus::Failed(1)),
        CdRequest::Resolve(p) => panic!("unexpected resolve: {p}"),
    }
}

#[test]
fn cd_without_home_fails_with_code_one() {
    let args: Vec<String> = Vec::new();
    match cd(&args, &None) {
        CdRequest::Fail(st) => assert_eq!(st.code(), 1),
        CdRequest::Resolve(p) => panic!("unexpected resolve: {p}"),
    }
}

#[test]
fn cd_expands_every_tilde() {
    let args = vec!["~/work".to_string()];
    let home = Some("/home/user".to_string());
    match cd(&args, &home) {
        CdRequest::Resolve(path) => assert_eq!(path, "/home/user/work"),
        CdRequest::Fail(st) => panic!("unexpected failure: {st:?}"),
    }
}

#[test]
fn cd_into_an_unreadable_directory_exits_two() {
    assert_eq!(cd_outcome(true, false), ExitStatus::Failed(2));
    assert_eq!(cd_outcome(true, false).code(), 2);
}
