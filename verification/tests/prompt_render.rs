use vshell::cursor::{Cursor, Position};
use vshell::displaymode::Mode;
use vshell::prompt::Prompt;
use vshell::render::{clear_line, TermOp};

fn op_text(op: &TermOp) -> String {
    match op {
        TermOp::Text(s) => format!("T({s})"),
        TermOp::Cr => "CR".to_string(),
        TermOp::NewLine => "NL".to_string(),
        TermOp::Spaces(n) => format!("SP({n})"),
        TermOp::Save => "SAVE".to_string(),
        TermOp::Restore => "RESTORE".to_string(),
        TermOp::MoveLeftOne => "LEFT".to_string(),
        TermOp::MoveRightOne => "RIGHT".to_string(),
        TermOp::MoveTo(r, l) => format!("GOTO({r},{l})"),
    }
}

fn rendering(ops: &[TermOp]) -> Vec<String> {
    ops.iter().map(op_text).collect()
}

#[test]
fn home_prefix_shortens_to_a_tilde() {
    let p = Prompt::new(&Some("/home/user/work".to_string()), &Some("/home/user".to_string()));
    assert_eq!(p.text(), "~/work > ");
    assert_eq!(p.len(), 9);
}

#[test]
fn directory_outside_home_stays_as_it_is() {
    let p = Prompt::new(&Some("/var/log".to_string()), &Some("/home/user".to_string()));
    assert_eq!(p.text(), "/var/log > ");
}

#[test]
fn unknown_directory_shows_the_error_marker() {
    let p = Prompt::new(&None, &Some("/home/user".to_string()));
    assert_eq!(p.text(), "PWD ERROR >  > ");
}

#[test]
fn carriage_return_redraw_is_idempotent() {
    // Two renders with no intervening edits write the same operations.
    let pwd = Some("/home/user".to_string());
    let home = Some("/home/user".to_string());
    let mut p = Prompt::new(&pwd, &home);
    let mut cursor = Cursor::new(Position { row: 4, line: 2 });
    let first = p.display(Mode::CarriageReturn, None, &mut cursor, &pwd, &home);
    assert!(first.resync);
    // The caller resyncs the tracker after writing, as the render asked.
    cursor.update(Position { row: 4, line: 2 }, false);
    let second = p.display(Mode::CarriageReturn, None, &mut cursor, &pwd, &home);
    assert_eq!(rendering(&first.ops), rendering(&second.ops));
    assert_eq!(rendering(&first.ops), vec!["CR".to_string(), "T(~ > )".to_string()]);
}

#[test]
fn moved_cursor_render_is_wrapped_in_save_restore() {
    let pwd = Some("/p".to_string());
    let home = None;
    let mut p = Prompt::new(&pwd, &home);
    let mut cursor = Cursor::new(Position { row: 5, line: 0 });
    cursor.position.row = 7;
    cursor.has_moved = true;
    let out = p.display(Mode::Normal, Some("abc"), &mut cursor, &pwd, &home);
    assert!(!out.resync);
    assert_eq!(
        rendering(&out.ops),
        vec!["SAVE", "CR", "T(/p > )", "T(abc)", "RESTORE"]
            .into_iter()
            .map(String::from)
            .collect::<Vec<_>>()
    );
}

#[test]
fn backspace_redraw_steps_the_moved_cursor_left() {
    let pwd = Some("/p".to_string());
    let home = None;
    let mut p = Prompt::new(&pwd, &home);
    let mut cursor = Cursor::new(Position { row: 5, line: 0 });
    cursor.position.row = 7;
    cursor.has_moved = true;
    let out = p.display(Mode::Backspace, Some("ab"), &mut cursor, &pwd, &home);
    assert_eq!(cursor.position.row, 6);
    assert!(matches!(out.ops.last(), Some(TermOp::MoveLeftOne)));
}

#[test]
fn clear_line_blanks_in_place() {
    let ops = clear_line(7);
    assert_eq!(rendering(&ops), vec!["SAVE", "CR", "SP(7)", "RESTORE"]
        .into_iter().map(String::from).collect::<Vec<_>>());
}
