use vshell::parser::parse;

#[test]
fn parse_conjunction_two_commands() {
    let res = parse("ls -a && echo hi");
    assert_eq!(res.len(), 2);
    assert_eq!(res[0].get_command(), "ls");
    assert_eq!(res[0].get_args().as_slice(), &["-a".to_string()]);
    assert_eq!(res[1].get_command(), "echo");
    assert_eq!(res[1].get_args().as_slice(), &["hi".to_string()]);
}

#[test]
fn parse_leading_and_trailing_space() {
    let res = parse("  ls ");
    assert_eq!(res.len(), 1);
    assert_eq!(res[0].get_command(), "ls");
    assert!(res[0].get_args().is_empty());
}

#[test]
fn parse_bare_separator_yields_nothing() {
    let res = parse("&&");
    assert_eq!(res.len(), 0);
}

#[test]
fn parse_empty_line_yields_nothing() {
    let res = parse("");
    assert_eq!(res.len(), 0);
}

#[test]
fn parse_extra_ampersand_stays_in_segment() {
    let res = parse("a&&&b");
    assert_eq!(res.len(), 2);
    assert_eq!(res[0].get_command(), "a");
    assert!(res[0].get_args().is_empty());
    assert_eq!(res[1].get_command(), "&b");
    assert!(res[1].get_args().is_empty());
}

#[test]
fn parse_collapses_consecutive_spaces() {
    let res = parse("echo  a   b");
    assert_eq!(res.len(), 1);
    assert_eq!(res[0].get_command(), "echo");
    assert_eq!(
        res[0].get_args().as_slice(),
        &["a".to_string(), "b".to_string()]
    );
}

#[test]
fn parse_empty_segment_between_separators_is_dropped() {
    let res = parse("a && && b");
    assert_eq!(res.len(), 2);
    assert_eq!(res[0].get_command(), "a");
    assert_eq!(res[1].get_command(), "b");
}
