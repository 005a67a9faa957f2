//! Key events and their classification into semantic editor actions.

use vstd::prelude::*;

verus! {

/// The key a raw event names. Unhandled keys arrive as `Other`.
#[derive(Clone, Copy, PartialEq, Eq, Debug)]
pub enum KeyCode {
    Char(char),
    Enter,
    Backspace,
    Up,
    Down,
    Left,
    Right,
    Other,
}

/// One raw keyboard event: the key, the exact modifier set, and whether
/// it is a press (as opposed to a release or repeat notice).
#[derive(Clone, Copy)]
pub struct KeyEvent {
    pub code: KeyCode,
    pub control: bool,
    pub shift: bool,
    pub other_modifier: bool,
    pub is_press: bool,
}

/// The semantic action one key event asks for.
#[derive(Clone, Copy, PartialEq, Eq, Debug)]
pub enum KeyAction {
    Quit,
    Submit,
    Cancel,
    Erase,
    Insert(char),
    HistoryUp,
    HistoryDown,
    CursorLeft,
    CursorRight,
    Ignored,
}

/// True when the event carries no modifier at all.
pub open spec fn no_modifiers(ev: KeyEvent) -> bool {
    !ev.control && !ev.shift && !ev.other_modifier
}

/// True when the event carries exactly the control modifier.
pub open spec fn only_control(ev: KeyEvent) -> bool {
    ev.control && !ev.shift && !ev.other_modifier
}

/// True when the event carries exactly the shift modifier.
pub open spec fn only_shift(ev: KeyEvent) -> bool {
    !ev.control && ev.shift && !ev.other_modifier
}

/// The fixed set of characters the editor accepts: space and the printable
/// part of the basic character set.
pub open spec fn is_insertable(c: char) -> bool {
    0x20 <= c as u32 <= 0x7e
}

/// The action an event classifies to. Quit, submit, cancel and erase come
/// first; a printable character with no modifier or shift alone inserts, as
/// does space under any modifiers; then history and cursor navigation;
/// everything else, and any non-press event, is ignored.
pub open spec fn classified(ev: KeyEvent) -> KeyAction {
    if !ev.is_press {
        KeyAction::Ignored
    } else if only_control(ev) && ev.code == KeyCode::Char('d') {
        KeyAction::Quit
    } else if ev.code == KeyCode::Enter {
        KeyAction::Submit
    } else if only_control(ev) && ev.code == KeyCode::Char('c') {
        KeyAction::Cancel
    } else if ev.code == KeyCode::Backspace {
        KeyAction::Erase
    } else if (no_modifiers(ev) || only_shift(ev)) && (ev.code matches KeyCode::Char(c)
        && is_insertable(c)) {
        if let KeyCode::Char(c) = ev.code {
            KeyAction::Insert(c)
        } else {
            KeyAction::Ignored
        }
    } else if ev.code == KeyCode::Char(' ') {
        KeyAction::Insert(' ')
    } else if ev.code == KeyCode::Up {
        KeyAction::HistoryUp
    } else if ev.code == KeyCode::Down {
        KeyAction::HistoryDown
    } else if ev.code == KeyCode::Left {
        KeyAction::CursorLeft
    } else if ev.code == KeyCode::Right {
        KeyAction::CursorRight
    } else {
        KeyAction::Ignored
    }
}

/// Maps one raw key event to its semantic action.
pub fn classify(ev: &KeyEvent) -> (a: KeyAction)
    ensures
        a == classified(*ev),
{
    if !ev.is_press {
        return KeyAction::Ignored;
    }
    let ctrl_only = ev.control && !ev.shift && !ev.other_modifier;
    let no_mods = !ev.control && !ev.shift && !ev.other_modifier;
    let shift_only = !ev.control && ev.shift && !ev.other_modifier;
    match ev.code {
        KeyCode::Char(c) => {
            if ctrl_only && c == 'd' {
                KeyAction::Quit
            } else if ctrl_only && c == 'c' {
                KeyAction::Cancel
            } else if (no_mods || shift_only) && 0x20 <= c as u32 && c as u32 <= 0x7e {
                KeyAction::Insert(c)
            } else if c == ' ' {
                KeyAction::Insert(' ')
            } else {
                KeyAction::Ignored
            }
        },
        KeyCode::Enter => KeyAction::Submit,
        KeyCode::Backspace => KeyAction::Erase,
        KeyCode::Up => KeyAction::HistoryUp,
        KeyCode::Down => KeyAction::HistoryDown,
        KeyCode::Left => KeyAction::CursorLeft,
        KeyCode::Right => KeyAction::CursorRight,
        KeyCode::Other => KeyAction::Ignored,
    }
}

} // verus!
