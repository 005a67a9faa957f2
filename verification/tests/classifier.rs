use vshell::keys::{classify, KeyAction, KeyCode, KeyEvent};

fn press(code: KeyCode) -> KeyEvent {
    KeyEvent { code, control: false, shift: false, other_modifier: false, is_press: true }
}

fn ctrl(code: KeyCode) -> KeyEvent {
    KeyEvent { code, control: true, shift: false, other_modifier: false, is_press: true }
}

#[test]
fn control_d_quits() {
    assert_eq!(classify(&ctrl(KeyCode::Char('d'))), KeyAction::Quit);
}

#[test]
fn enter_submits_with_any_modifiers() {
    assert_eq!(classify(&press(KeyCode::Enter)), KeyAction::Submit);
    assert_eq!(classify(&ctrl(KeyCode::Enter)), KeyAction::Submit);
}

#[test]
fn control_c_cancels() {
    assert_eq!(classify(&ctrl(KeyCode::Char('c'))), KeyAction::Cancel);
}

#[test]
fn backspace_erases() {
    assert_eq!(classify(&press(KeyCode::Backspace)), KeyAction::Erase);
}

#[test]
fn plain_and_shifted_printables_insert() {
    assert_eq!(classify(&press(KeyCode::Char('a'))), KeyAction::Insert('a'));
    let shifted = KeyEvent {
        code: KeyCode::Char('A'),
        control: false,
        shift: true,
        other_modifier: false,
        is_press: true,
    };
    assert_eq!(classify(&shifted), KeyAction::Insert('A'));
    assert_eq!(classify(&press(KeyCode::Char('~'))), KeyAction::Insert('~'));
    assert_eq!(classify(&press(KeyCode::Char(' '))), KeyAction::Insert(' '));
}

#[test]
fn space_inserts_even_under_control() {
    assert_eq!(classify(&ctrl(KeyCode::Char(' '))), KeyAction::Insert(' '));
}

#[test]
fn arrows_navigate() {
    assert_eq!(classify(&press(KeyCode::Up)), KeyAction::HistoryUp);
    assert_eq!(classify(&press(KeyCode::Down)), KeyAction::HistoryDown);
    assert_eq!(classify(&press(KeyCode::Left)), KeyAction::CursorLeft);
    assert_eq!(classify(&press(KeyCode::Right)), KeyAction::CursorRight);
}

#[test]
fn releases_and_unknown_combinations_are_ignored() {
    let release = KeyEvent {
        code: KeyCode::Char('a'),
        control: false,
        shift: false,
        other_modifier: false,
        is_press: false,
    };
    assert_eq!(classify(&release), KeyAction::Ignored);
    assert_eq!(classify(&ctrl(KeyCode::Char('x'))), KeyAction::Ignored);
    assert_eq!(classify(&press(KeyCode::Other)), KeyAction::Ignored);
    let non_ascii = press(KeyCode::Char('é'));
    assert_eq!(classify(&non_ascii), KeyAction::Ignored);
}
