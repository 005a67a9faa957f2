use vshell::command::Command;
use vshell::cursor::{Cursor, Position};
use vshell::history::History;
use vshell::keys::{KeyCode, KeyEvent};
use vshell::prompt::Prompt;
use vshell::render::TermOp;

fn press(code: KeyCode) -> KeyEvent {
    KeyEvent { code, control: false, shift: false, other_modifier: false, is_press: true }
}

fn setup(entries: &[&str]) -> (History, Command, Prompt, Cursor) {
    let mut h = History::new();
    for e in entries {
        h.push(Command::with_text(e.to_string()));
    }
    let current = Command::default();
    let prompt = Prompt::new(&Some("/p".to_string()), &None);
    let cursor = Cursor::new(Position { row: 5, line: 0 });
    (h, current, prompt, cursor)
}

#[test]
fn up_recalls_newest_first_then_older() {
    let (mut h, mut cur, mut p, mut c) = setup(&["one", "two", "three"]);
    let pwd = Some("/p".to_string());
    let home = None;
    h.handle_history(&press(KeyCode::Up), &mut cur, &mut p, &mut c, &pwd, &home);
    assert_eq!(h.current_index, 1);
    assert_eq!(cur.get_command(), "three");
    h.handle_history(&press(KeyCode::Up), &mut cur, &mut p, &mut c, &pwd, &home);
    assert_eq!(h.current_index, 2);
    assert_eq!(cur.get_command(), "two");
    h.handle_history(&press(KeyCode::Up), &mut cur, &mut p, &mut c, &pwd, &home);
    assert_eq!(h.current_index, 3);
    assert_eq!(cur.get_command(), "one");
}

#[test]
fn up_past_the_oldest_entry_is_a_no_op() {
    let (mut h, mut cur, mut p, mut c) = setup(&["one", "two"]);
    let pwd = Some("/p".to_string());
    let home = None;
    for _ in 0..2 {
        h.handle_history(&press(KeyCode::Up), &mut cur, &mut p, &mut c, &pwd, &home);
    }
    assert_eq!(h.current_index, 2);
    assert_eq!(cur.get_command(), "one");
    let out = h.handle_history(&press(KeyCode::Up), &mut cur, &mut p, &mut c, &pwd, &home);
    assert_eq!(h.current_index, 2);
    assert_eq!(cur.get_command(), "one");
    assert!(out.ops.is_empty());
    assert!(!out.resync);
}

#[test]
fn down_from_most_recent_clears_line_and_stops_browsing() {
    let (mut h, mut cur, mut p, mut c) = setup(&["one"]);
    let pwd = Some("/p".to_string());
    let home = None;
    h.handle_history(&press(KeyCode::Up), &mut cur, &mut p, &mut c, &pwd, &home);
    assert_eq!(h.current_index, 1);
    let out = h.handle_history(&press(KeyCode::Down), &mut cur, &mut p, &mut c, &pwd, &home);
    assert_eq!(h.current_index, 0);
    assert_eq!(cur.get_command(), "");
    assert!(!out.ops.is_empty());
}

#[test]
fn down_on_a_fresh_line_is_a_no_op() {
    let (mut h, mut cur, mut p, mut c) = setup(&["one"]);
    let pwd = Some("/p".to_string());
    let home = None;
    let out = h.handle_history(&press(KeyCode::Down), &mut cur, &mut p, &mut c, &pwd, &home);
    assert_eq!(h.current_index, 0);
    assert_eq!(cur.get_command(), "");
    assert!(out.ops.is_empty());
    assert!(!out.resync);
}

#[test]
fn down_while_deep_steps_one_entry_newer() {
    let (mut h, mut cur, mut p, mut c) = setup(&["one", "two", "three"]);
    let pwd = Some("/p".to_string());
    let home = None;
    for _ in 0..3 {
        h.handle_history(&press(KeyCode::Up), &mut cur, &mut p, &mut c, &pwd, &home);
    }
    assert_eq!(cur.get_command(), "one");
    h.handle_history(&press(KeyCode::Down), &mut cur, &mut p, &mut c, &pwd, &home);
    assert_eq!(h.current_index, 2);
    assert_eq!(cur.get_command(), "two");
}

#[test]
fn first_up_press_blanks_no_prior_line() {
    let (mut h, mut cur, mut p, mut c) = setup(&["abc"]);
    let pwd = Some("/p".to_string());
    let home = None;
    let out = h.handle_history(&press(KeyCode::Up), &mut cur, &mut p, &mut c, &pwd, &home);
    // No prior entry was on screen: the redraw starts right away, without
    // the save/blank/restore preamble.
    assert!(matches!(out.ops[0], TermOp::Cr));
    match &out.ops[1] {
        TermOp::Text(t) => assert_eq!(t, "/p > "),
        other => panic!("expected prompt text, got {other:?}"),
    }
    match &out.ops[2] {
        TermOp::Text(t) => assert_eq!(t, "abc"),
        other => panic!("expected command text, got {other:?}"),
    }
}

#[test]
fn second_up_press_blanks_the_prior_entry_width() {
    let (mut h, mut cur, mut p, mut c) = setup(&["aaaa", "bb"]);
    let pwd = Some("/p".to_string());
    let home = None;
    h.handle_history(&press(KeyCode::Up), &mut cur, &mut p, &mut c, &pwd, &home);
    let out = h.handle_history(&press(KeyCode::Up), &mut cur, &mut p, &mut c, &pwd, &home);
    // Blanked width: prior entry "bb" (2) + prompt "/p > " (5) + 1.
    assert!(matches!(out.ops[0], TermOp::Save));
    assert!(matches!(out.ops[1], TermOp::Cr));
    assert!(matches!(out.ops[2], TermOp::Spaces(8)));
    assert!(matches!(out.ops[3], TermOp::Restore));
}
