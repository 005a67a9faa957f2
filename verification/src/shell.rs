//! The event-loop step machine. The caller reads raw key events, hands each
//! one in here, writes the returned operations, and performs the effects the
//! step asks for: resyncing the cursor from the terminal, running a
//! submitted line, or exiting. All decisions live here.

use vstd::prelude::*;

use crate::command::Command;
use crate::cursor::{Cursor, Position};
use crate::displaymode::Mode;
use crate::history::{clear_width, nav_outcome, History};
use crate::keys::{classified, classify, KeyAction, KeyEvent};
use crate::prompt::{display_ops, opt_string_view, prompt_text, Prompt};
use crate::render::{clear_line, clear_line_model, extend_ops, ops_model, OpModel, TermOp};

verus! {

/// A width cast to the column type the way the editor does it: a width too
/// large for a column becomes zero, which allows no rightward move.
pub open spec fn row_cast(x: int) -> int {
    if x <= u16::MAX {
        x
    } else {
        0
    }
}

fn cast_row(x: usize) -> (r: u16)
    ensures
        r as int == row_cast(x as int),
{
    if x <= (u16::MAX as usize) {
        x as u16
    } else {
        0
    }
}

/// The top of the edit region: the column where input begins plus the text
/// length, capped at the column type.
pub open spec fn region_top(init: int, len: int) -> int {
    if init + len > u16::MAX {
        u16::MAX as int
    } else {
        init + len
    }
}

fn region_top_row(init: u16, len: usize) -> (r: u16)
    ensures
        r as int == region_top(init as int, len as int),
{
    let sum = (init as usize).saturating_add(len);
    if sum <= (u16::MAX as usize) {
        sum as u16
    } else {
        u16::MAX
    }
}

/// What one step hands back: operations to write, whether the caller must
/// read the physical cursor position back (resetting where input begins
/// when a fresh prompt line started), a line to execute, and whether the
/// session ends.
pub struct StepOut {
    pub ops: Vec<TermOp>,
    pub resync: bool,
    pub reset_initial: bool,
    pub execute: Option<String>,
    pub exit: bool,
}

/// The reference model of the line under edit: its text and the logical
/// cursor offset within it.
#[verifier::ext_equal]
pub struct EditModel {
    pub text: Seq<char>,
    pub off: int,
}

/// One edit action on the reference model. Insert places the character at
/// the offset and steps right. Erase removes the last character when the
/// offset sits at or past the end, the character left of the offset when
/// the offset is inside the text, and nothing at the very start; the
/// offset follows the removed character. The cursor moves stay within the
/// text: left stops at zero, right at the text length.
pub open spec fn edit_step(m: EditModel, a: KeyAction) -> EditModel {
    match a {
        KeyAction::Insert(c) => if 0 <= m.off <= m.text.len() {
            EditModel {
                text: m.text.subrange(0, m.off) + seq![c] + m.text.skip(m.off),
                off: m.off + 1,
            }
        } else {
            m
        },
        KeyAction::Erase => if m.text.len() == 0 {
            m
        } else if m.off >= m.text.len() {
            EditModel { text: m.text.drop_last(), off: m.text.len() - 1 }
        } else if m.off > 0 {
            EditModel {
                text: m.text.subrange(0, m.off - 1) + m.text.skip(m.off),
                off: m.off - 1,
            }
        } else {
            m
        },
        KeyAction::CursorLeft => EditModel {
            text: m.text,
            off: if m.off > 0 {
                m.off - 1
            } else {
                0
            },
        },
        KeyAction::CursorRight => EditModel {
            text: m.text,
            off: if m.off < m.text.len() {
                m.off + 1
            } else {
                m.off
            },
        },
        _ => m,
    }
}

/// The reference model after a whole sequence of edit actions.
pub open spec fn edits_fold(m: EditModel, actions: Seq<KeyAction>) -> EditModel
    decreases actions.len(),
{
    if actions.len() == 0 {
        m
    } else {
        edits_fold(edit_step(m, actions[0]), actions.skip(1))
    }
}

/// Law: over any sequence of insert, erase and cursor-move actions, the
/// logical offset stays within the text: it never leaves
/// `[0, text.len()]`, whatever the interleaving.
pub proof fn lemma_edit_offsets_bounded(m: EditModel, actions: Seq<KeyAction>)
    requires
        0 <= m.off <= m.text.len(),
    ensures
        0 <= edits_fold(m, actions).off <= edits_fold(m, actions).text.len(),
    decreases actions.len(),
{
    if actions.len() > 0 {
        let m1 = edit_step(m, actions[0]);
        assert(0 <= m1.off <= m1.text.len());
        lemma_edit_offsets_bounded(m1, actions.skip(1));
    }
}

/// Law: a cursor move alone never changes the text; only insert and erase
/// edit the line.
pub proof fn lemma_moves_do_not_edit(m: EditModel, a: KeyAction)
    requires
        a == KeyAction::CursorLeft || a == KeyAction::CursorRight || a
            == KeyAction::HistoryUp || a == KeyAction::HistoryDown || a
            == KeyAction::Ignored,
    ensures
        edit_step(m, a).text == m.text,
{
}

/// The whole editor state one loop iteration works on.
#[verifier::ext_equal]
pub struct Shell {
    pub current_command: Command,
    pub history: History,
    pub prompt: Prompt,
    pub cursor: Cursor,
}

impl Shell {
    /// The logical cursor offset within the line under edit.
    pub open spec fn edit_offset(&self) -> int {
        self.cursor.position.row - self.cursor.initial_position.row
    }

    /// The editor's invariant: the cursor never sits left of where input
    /// begins nor past the end of the text, and the browse index stays
    /// within the history.
    pub open spec fn wf(&self) -> bool {
        &&& self.cursor.initial_position.row <= self.cursor.position.row
        &&& self.edit_offset() <= self.current_command.text().len()
        &&& self.history.wf()
    }

    /// A fresh editor: empty line, empty history, prompt computed from the
    /// given directories, cursor at the given position with input starting
    /// there.
    pub fn new(position: Position, pwd: &Option<String>, home: &Option<String>) -> (s: Shell)
        ensures
            s.wf(),
            s.current_command.text() == Seq::<char>::empty(),
            s.history.entry_texts() == Seq::<Seq<char>>::empty(),
            s.history.current_index == 0,
            s.prompt.text_view() == prompt_text(opt_string_view(*pwd), opt_string_view(*home)),
            s.cursor.position == position,
            s.cursor.initial_position == position,
            !s.cursor.has_moved,
    {
        Shell {
            current_command: Command::default(),
            history: History::new(),
            prompt: Prompt::new(pwd, home),
            cursor: Cursor::new(position),
        }
    }

    /// Adopts the physical cursor position the caller read back after a
    /// render, clamped into the edit region so the invariant holds; when a
    /// fresh prompt line starts, input begins at that position.
    pub fn resync(&mut self, position: Position, reset_initial: bool) -> (u: ())
        requires
            old(self).history.wf(),
        ensures
            final(self).wf(),
            !final(self).cursor.has_moved,
            final(self).cursor.initial_position == (
            if reset_initial {
                position
            } else {
                old(self).cursor.initial_position
            }),
            final(self).cursor.position.line == position.line,
            ({
                let init = if reset_initial {
                    position.row as int
                } else {
                    old(self).cursor.initial_position.row as int
                };
                let top = region_top(init, old(self).current_command.text().len() as int);
                final(self).cursor.position.row as int == (
                if position.row < init {
                    init
                } else if position.row > top {
                    top
                } else {
                    position.row as int
                })
            }),
            final(self).current_command == old(self).current_command,
            final(self).history == old(self).history,
            final(self).prompt == old(self).prompt,
    {
        let init = if reset_initial {
            position
        } else {
            self.cursor.initial_position
        };
        let len = self.current_command.len();
        let top = region_top_row(init.row, len);
        let row = if position.row < init.row {
            init.row
        } else if position.row > top {
            top
        } else {
            position.row
        };
        self.cursor = Cursor {
            initial_position: init,
            position: Position { row, line: position.line },
            has_moved: false,
        };
    }

    /// Reacts to one classified key event. `observed` is the physical
    /// cursor position the caller last read; only a cancel uses it, to
    /// place the fresh prompt on the next terminal line.
    pub fn on_key(
        &mut self,
        ev: &KeyEvent,
        pwd: &Option<String>,
        home: &Option<String>,
        observed: Position,
    ) -> (out: StepOut)
        requires
            old(self).wf(),
        ensures
            out.exit == (classified(*ev) == KeyAction::Quit),
            (classified(*ev) == KeyAction::Submit ==> (out.execute matches Some(line)
                && line@ == old(self).current_command.text())),
            classified(*ev) != KeyAction::Submit ==> out.execute is None,
            out.reset_initial == false,
            ({
                let a = classified(*ev);
                let ptext = prompt_text(opt_string_view(*pwd), opt_string_view(*home));
                let oldcur = old(self).cursor;
                let off = old(self).edit_offset();
                let oldtext = old(self).current_command.text();
                if a == KeyAction::Quit || a == KeyAction::Ignored {
                    &&& *final(self) == *old(self)
                    &&& ops_model(out.ops@) == Seq::<OpModel>::empty()
                    &&& out.resync == false
                    &&& final(self).wf()
                } else if a == KeyAction::Submit {
                    &&& final(self).current_command == old(self).current_command
                    &&& final(self).history == old(self).history
                    &&& final(self).prompt == old(self).prompt
                    &&& final(self).cursor.position == oldcur.position
                    &&& final(self).cursor.initial_position == oldcur.initial_position
                    &&& !final(self).cursor.has_moved
                    &&& ops_model(out.ops@) == Seq::<OpModel>::empty()
                    &&& out.resync == false
                    &&& final(self).wf()
                } else if a == KeyAction::Cancel {
                    &&& final(self).current_command.text() == Seq::<char>::empty()
                    &&& final(self).current_command.args_view() == Seq::<Seq<char>>::empty()
                    &&& final(self).history == old(self).history
                    &&& final(self).prompt.text_view() == ptext
                    &&& final(self).cursor.initial_position == final(self).cursor.position
                    &&& final(self).cursor.position.row as int == row_cast(ptext.len() as int)
                    &&& final(self).cursor.position.line == observed.line.saturating_add(1)
                    &&& !final(self).cursor.has_moved
                    &&& ops_model(out.ops@) == display_ops(
                        Mode::NewLineAndCarriageReturn,
                        ptext,
                        None,
                        oldcur,
                    ) + seq![
                        OpModel::MoveTo(
                            row_cast(ptext.len() as int),
                            observed.line.saturating_add(1) as int,
                        ),
                    ]
                    &&& out.resync == false
                    &&& final(self).wf()
                } else if a == KeyAction::Erase {
                    if oldtext.len() == 0 {
                        &&& *final(self) == *old(self)
                        &&& ops_model(out.ops@) == Seq::<OpModel>::empty()
                        &&& out.resync == false
                        &&& final(self).wf()
                    } else {
                        let text1 = if off >= oldtext.len() {
                            oldtext.drop_last()
                        } else if off > 0 {
                            oldtext.subrange(0, off - 1) + oldtext.skip(off)
                        } else {
                            oldtext
                        };
                        &&& final(self).current_command.text() == text1
                        &&& final(self).current_command.args_view() == old(self).current_command.args_view()
                        &&& final(self).history == old(self).history
                        &&& final(self).prompt.text_view() == ptext
                        &&& ops_model(out.ops@) == clear_line_model(clear_width(
                            oldtext.len() as int,
                            old(self).prompt.text_view().len() as int,
                            0,
                        )) + display_ops(Mode::Backspace, ptext, Some(text1), oldcur)
                        &&& out.resync == !oldcur.has_moved
                        &&& !oldcur.has_moved ==> final(self).cursor == oldcur
                        &&& oldcur.has_moved ==> final(self).cursor.has_moved && final(self).cursor.initial_position == oldcur.initial_position && final(self).cursor.position.line == oldcur.position.line && final(self).cursor.position.row as int == (
                        if oldcur.position.row > oldcur.initial_position.row {
                            oldcur.position.row - 1
                        } else {
                            oldcur.position.row as int
                        })
                        &&& !out.resync ==> final(self).wf()
                        &&& oldcur.has_moved ==> final(self).edit_offset() == edit_step(
                            EditModel { text: oldtext, off },
                            KeyAction::Erase,
                        ).off
                    }
                } else if a is Insert {
                    let c = a->Insert_0;
                    let text1 = oldtext.subrange(0, off) + seq![c] + oldtext.skip(off);
                    let sum = clear_width(
                        old(self).prompt.text_view().len() as int,
                        text1.len() as int,
                        0,
                    );
                    let do_move = sum != oldcur.position.row as int;
                    let moved = do_move && (oldcur.position.row as int) < row_cast(sum);
                    &&& final(self).current_command.text() == text1
                    &&& final(self).current_command.args_view() == old(self).current_command.args_view()
                    &&& final(self).history == old(self).history
                    &&& final(self).prompt.text_view() == ptext
                    &&& final(self).cursor.initial_position == oldcur.initial_position
                    &&& final(self).cursor.position.line == oldcur.position.line
                    &&& final(self).cursor.has_moved == (oldcur.has_moved || moved)
                    &&& final(self).cursor.position.row as int == (
                    if moved {
                        oldcur.position.row + 1
                    } else {
                        oldcur.position.row as int
                    })
                    &&& ops_model(out.ops@) == (
                    if moved {
                        seq![OpModel::MoveRightOne]
                    } else {
                        Seq::<OpModel>::empty()
                    }) + display_ops(Mode::Normal, ptext, Some(text1), final(self).cursor)
                    &&& out.resync == !(oldcur.has_moved || moved)
                    &&& final(self).wf()
                    &&& (old(self).prompt.text_view().len() == oldcur.initial_position.row
                        && oldcur.initial_position.row + oldtext.len() + 1 <= u16::MAX)
                        ==> final(self).edit_offset() == off + 1
                } else if a == KeyAction::HistoryUp || a == KeyAction::HistoryDown {
                    let o = nav_outcome(
                        ev.code,
                        old(self).history.entry_texts().len() as int,
                        old(self).history.current_index as int,
                        old(self).history.entry_texts(),
                        old(self).prompt.text_view().len() as int,
                        ptext,
                        oldcur,
                    );
                    let len1 = if o.active {
                        o.text.len() as int
                    } else {
                        oldtext.len() as int
                    };
                    let top = region_top(oldcur.initial_position.row as int, len1);
                    &&& final(self).history.current_index == o.idx
                    &&& final(self).history.entry_texts() == old(self).history.entry_texts()
                    &&& o.active ==> final(self).current_command.text() == o.text
                    &&& o.active && !o.args_cleared ==> final(self).current_command.args_view()
                        == old(self).current_command.args_view()
                    &&& o.args_cleared ==> final(self).current_command.args_view() == Seq::<
                        Seq<char>,
                    >::empty()
                    &&& o.active ==> final(self).prompt.text_view() == ptext
                    &&& !o.active ==> final(self).current_command == old(self).current_command
                        && final(self).prompt == old(self).prompt
                    &&& ops_model(out.ops@) == o.ops
                    &&& out.resync == o.resync
                    &&& final(self).cursor.initial_position == oldcur.initial_position
                    &&& final(self).cursor.position.line == oldcur.position.line
                    &&& final(self).cursor.has_moved == oldcur.has_moved
                    &&& final(self).cursor.position.row as int == (
                    if oldcur.position.row as int > top {
                        top
                    } else {
                        oldcur.position.row as int
                    })
                    &&& final(self).wf()
                } else if a == KeyAction::CursorLeft {
                    let moved = oldcur.position.row > oldcur.initial_position.row;
                    &&& final(self).current_command == old(self).current_command
                    &&& final(self).history == old(self).history
                    &&& final(self).prompt == old(self).prompt
                    &&& final(self).cursor.initial_position == oldcur.initial_position
                    &&& final(self).cursor.position.line == oldcur.position.line
                    &&& final(self).cursor.position.row as int == (
                    if moved {
                        oldcur.position.row - 1
                    } else {
                        oldcur.position.row as int
                    })
                    &&& final(self).cursor.has_moved == (oldcur.has_moved || moved)
                    &&& ops_model(out.ops@) == (
                    if moved {
                        seq![OpModel::MoveLeftOne]
                    } else {
                        Seq::<OpModel>::empty()
                    })
                    &&& out.resync == false
                    &&& final(self).wf()
                    &&& final(self).edit_offset() == edit_step(
                        EditModel { text: oldtext, off },
                        KeyAction::CursorLeft,
                    ).off
                } else if a == KeyAction::CursorRight {
                    let sum = clear_width(
                        old(self).prompt.text_view().len() as int,
                        oldtext.len() as int,
                        0,
                    );
                    let moved = off < oldtext.len() && (oldcur.position.row as int) < row_cast(
                        sum,
                    );
                    &&& final(self).current_command == old(self).current_command
                    &&& final(self).history == old(self).history
                    &&& final(self).prompt == old(self).prompt
                    &&& final(self).cursor.initial_position == oldcur.initial_position
                    &&& final(self).cursor.position.line == oldcur.position.line
                    &&& final(self).cursor.position.row as int == (
                    if moved {
                        oldcur.position.row + 1
                    } else {
                        oldcur.position.row as int
                    })
                    &&& final(self).cursor.has_moved == (oldcur.has_moved || moved)
                    &&& ops_model(out.ops@) == (
                    if moved {
                        seq![OpModel::MoveRightOne]
                    } else {
                        Seq::<OpModel>::empty()
                    })
                    &&& out.resync == false
                    &&& final(self).wf()
                    &&& (old(self).prompt.text_view().len() == oldcur.initial_position.row
                        && oldcur.initial_position.row + oldtext.len() <= u16::MAX)
                        ==> final(self).edit_offset() == edit_step(
                        EditModel { text: oldtext, off },
                        KeyAction::CursorRight,
                    ).off
                } else {
                    true
                }
            }),
    {
        let action = classify(ev);
        match action {
            KeyAction::Quit => {
                proof {
                    assert(ops_model(Seq::<TermOp>::empty()) =~= Seq::<OpModel>::empty());
                }
                StepOut {
                    ops: Vec::new(),
                    resync: false,
                    reset_initial: false,
                    execute: None,
                    exit: true,
                }
            },
            KeyAction::Submit => {
                self.cursor.has_moved = false;
                let line = String::from_str(self.current_command.get_command());
                proof {
                    assert(ops_model(Seq::<TermOp>::empty()) =~= Seq::<OpModel>::empty());
                }
                StepOut {
                    ops: Vec::new(),
                    resync: false,
                    reset_initial: false,
                    execute: Some(line),
                    exit: false,
                }
            },
            KeyAction::Cancel => {
                self.current_command = Command::default();
                let d = self.prompt.display(
                    Mode::NewLineAndCarriageReturn,
                    None,
                    &mut self.cursor,
                    pwd,
                    home,
                );
                let mut ops = d.ops;
                let target = Position {
                    row: cast_row(self.prompt.len()),
                    line: observed.line.saturating_add(1),
                };
                self.cursor.update(target, true);
                let ghost pre = ops@;
                ops.push(TermOp::MoveTo(target.row, target.line));
                proof {
                    assert(ops_model(ops@) =~= ops_model(pre) + seq![
                        OpModel::MoveTo(target.row as int, target.line as int),
                    ]);
                }
                StepOut { ops, resync: false, reset_initial: false, execute: None, exit: false }
            },
            KeyAction::Erase => {
                if self.current_command.is_empty() {
                    proof {
                        assert(ops_model(Seq::<TermOp>::empty()) =~= Seq::<OpModel>::empty());
                    }
                    StepOut {
                        ops: Vec::new(),
                        resync: false,
                        reset_initial: false,
                        execute: None,
                        exit: false,
                    }
                } else {
                    let width = self.current_command.len().saturating_add(self.prompt.len());
                    let mut ops = clear_line(width);
                    let off = (self.cursor.position.row - self.cursor.initial_position.row)
                        as usize;
                    if self.current_command.len() <= off {
                        self.current_command.pop();
                    } else if off != 0 {
                        self.current_command.remove(off - 1);
                    }
                    let d = self.prompt.display(
                        Mode::Backspace,
                        Some(self.current_command.get_command()),
                        &mut self.cursor,
                        pwd,
                        home,
                    );
                    let resync = d.resync;
                    let ghost pre = ops@;
                    let ghost sops = d.ops@;
                    extend_ops(&mut ops, d.ops);
                    proof {
                        assert(ops@ == pre + sops);
                        assert(ops_model(pre + sops) =~= ops_model(pre) + ops_model(sops));
                    }
                    StepOut { ops, resync, reset_initial: false, execute: None, exit: false }
                }
            },
            KeyAction::Insert(c) => {
                let off = (self.cursor.position.row - self.cursor.initial_position.row) as usize;
                self.current_command.insert(c, off);
                let mut ops: Vec<TermOp> = Vec::new();
                let sum = self.prompt.len().saturating_add(self.current_command.len());
                if sum != self.cursor.position.row as usize {
                    let bound = cast_row(sum);
                    let moved = self.cursor.move_right(bound);
                    if moved {
                        ops.push(TermOp::MoveRightOne);
                    }
                }
                let d = self.prompt.display(
                    Mode::Normal,
                    Some(self.current_command.get_command()),
                    &mut self.cursor,
                    pwd,
                    home,
                );
                let resync = d.resync;
                let ghost pre = ops@;
                let ghost sops = d.ops@;
                extend_ops(&mut ops, d.ops);
                proof {
                    assert(ops@ == pre + sops);
                    assert(ops_model(pre + sops) =~= ops_model(pre) + ops_model(sops));
                }
                StepOut { ops, resync, reset_initial: false, execute: None, exit: false }
            },
            KeyAction::HistoryUp | KeyAction::HistoryDown => {
                let nav = self.history.handle_history(
                    ev,
                    &mut self.current_command,
                    &mut self.prompt,
                    &mut self.cursor,
                    pwd,
                    home,
                );
                let len = self.current_command.len();
                let top = region_top_row(self.cursor.initial_position.row, len);
                if self.cursor.position.row > top {
                    self.cursor.position.row = top;
                }
                StepOut {
                    ops: nav.ops,
                    resync: nav.resync,
                    reset_initial: false,
                    execute: None,
                    exit: false,
                }
            },
            KeyAction::CursorLeft => {
                let moved = self.cursor.move_left();
                let mut ops: Vec<TermOp> = Vec::new();
                if moved {
                    ops.push(TermOp::MoveLeftOne);
                }
                proof {
                    if moved {
                        assert(ops_model(ops@) =~= seq![OpModel::MoveLeftOne]);
                    } else {
                        assert(ops_model(ops@) =~= Seq::<OpModel>::empty());
                    }
                }
                StepOut { ops, resync: false, reset_initial: false, execute: None, exit: false }
            },
            KeyAction::CursorRight => {
                let off = (self.cursor.position.row - self.cursor.initial_position.row) as usize;
                let len = self.current_command.len();
                let mut ops: Vec<TermOp> = Vec::new();
                if off < len {
                    let bound = cast_row(len.saturating_add(self.prompt.len()));
                    let moved = self.cursor.move_right(bound);
                    if moved {
                        ops.push(TermOp::MoveRightOne);
                    }
                }
                proof {
                    if ops@.len() == 1 {
                        assert(ops_model(ops@) =~= seq![OpModel::MoveRightOne]);
                    } else {
                        assert(ops_model(ops@) =~= Seq::<OpModel>::empty());
                    }
                }
                StepOut { ops, resync: false, reset_initial: false, execute: None, exit: false }
            },
            KeyAction::Ignored => {
                proof {
                    assert(ops_model(Seq::<TermOp>::empty()) =~= Seq::<OpModel>::empty());
                }
                StepOut {
                    ops: Vec::new(),
                    resync: false,
                    reset_initial: false,
                    execute: None,
                    exit: false,
                }
            },
        }
    }

    /// Finishes a submitted line after the caller ran it: a non-empty line
    /// enters the history, the line resets, the prompt is redrawn on a
    /// carriage return, browsing stops, and the caller must resync the
    /// cursor with `reset_initial`, since a fresh prompt line begins.
    pub fn finish_submit(&mut self, pwd: &Option<String>, home: &Option<String>) -> (out:
        StepOut)
        requires
            old(self).history.wf(),
            !old(self).cursor.has_moved,
        ensures
            old(self).current_command.text().len() > 0 ==> final(self).history.entry_texts()
                == old(self).history.entry_texts().push(old(self).current_command.text()),
            old(self).current_command.text().len() == 0 ==> final(self).history.entry_texts()
                == old(self).history.entry_texts(),
            final(self).history.current_index == 0,
            final(self).current_command.text() == Seq::<char>::empty(),
            final(self).current_command.args_view() == Seq::<Seq<char>>::empty(),
            final(self).prompt.text_view() == prompt_text(
                opt_string_view(*pwd),
                opt_string_view(*home),
            ),
            final(self).cursor == old(self).cursor,
            ops_model(out.ops@) == display_ops(
                Mode::CarriageReturn,
                prompt_text(opt_string_view(*pwd), opt_string_view(*home)),
                None,
                old(self).cursor,
            ),
            out.resync == true,
            out.reset_initial == true,
            out.execute is None,
            !out.exit,
    {
        if !self.current_command.is_empty() {
            let submitted = self.current_command.duplicate();
            self.history.push(submitted);
        }
        self.current_command = Command::default();
        let d = self.prompt.display(Mode::CarriageReturn, None, &mut self.cursor, pwd, home);
        self.history.current_index = 0;
        StepOut {
            ops: d.ops,
            resync: d.resync,
            reset_initial: true,
            execute: None,
            exit: false,
        }
    }
}

} // verus!
