use vshell::cursor::{Cursor, Position};

#[test]
fn left_at_the_start_of_input_is_a_no_op() {
    // Even at column zero with input starting at zero: nothing moves,
    // nothing is emitted, the tracker stays unmoved.
    let mut c = Cursor::new(Position { row: 0, line: 0 });
    assert!(!c.move_left());
    assert_eq!(c.position.row, 0);
    assert!(!c.has_moved);
}

#[test]
fn left_inside_the_line_steps_one_column() {
    let mut c = Cursor::new(Position { row: 3, line: 0 });
    c.position.row = 5;
    assert!(c.move_left());
    assert_eq!(c.position.row, 4);
    assert!(c.has_moved);
}

#[test]
fn right_under_the_bound_steps_one_column() {
    let mut c = Cursor::new(Position { row: 0, line: 0 });
    assert!(c.move_right(3));
    assert_eq!(c.position.row, 1);
    assert!(c.has_moved);
}

#[test]
fn right_at_or_past_the_bound_is_a_no_op() {
    let mut c = Cursor::new(Position { row: 0, line: 0 });
    c.position.row = 3;
    assert!(!c.move_right(3));
    assert_eq!(c.position.row, 3);
    assert!(!c.has_moved);
}

#[test]
fn a_zero_bound_allows_no_rightward_move() {
    // An overlong width is cast to bound zero precisely to forbid moves;
    // no column satisfies "under zero", column zero included.
    let mut c = Cursor::new(Position { row: 0, line: 0 });
    assert!(!c.move_right(0));
    assert_eq!(c.position.row, 0);
    assert!(!c.has_moved);
}

#[test]
fn update_resyncs_and_optionally_resets_where_input_begins() {
    let mut c = Cursor::new(Position { row: 2, line: 0 });
    c.has_moved = true;
    c.update(Position { row: 7, line: 1 }, false);
    assert_eq!(c.position.row, 7);
    assert_eq!(c.position.line, 1);
    assert_eq!(c.initial_position.row, 2);
    assert!(!c.has_moved);
    c.update(Position { row: 4, line: 2 }, true);
    assert_eq!(c.initial_position.row, 4);
    assert_eq!(c.initial_position.line, 2);
}
