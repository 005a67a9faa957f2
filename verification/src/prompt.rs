//! The prompt renderer: computes the prompt text from the working
//! directory, abbreviating the home directory, and produces the terminal
//! operations of every redraw.

use vstd::prelude::*;

use crate::cursor::Cursor;
use crate::displaymode::Mode;
use crate::render::{OpModel, RenderOut, TermOp};
use crate::strutil::{has_prefix, is_prefix_of, replace_all, replaced};

verus! {

/// The view of an optional owned string.
pub open spec fn opt_string_view(o: Option<String>) -> Option<Seq<char>> {
    match o {
        Some(s) => Some(s@),
        None => None,
    }
}

/// The view of an optional borrowed string.
pub open spec fn opt_str_view(o: Option<&str>) -> Option<Seq<char>> {
    match o {
        Some(s) => Some(s@),
        None => None,
    }
}

/// The displayed form of the working directory: the home prefix shortened
/// to a tilde when the directory lies under it, an error marker when the
/// directory is unknown.
pub open spec fn abbreviated_path(pwd: Option<Seq<char>>, home: Option<Seq<char>>) -> Seq<
    char,
> {
    match pwd {
        None => "PWD ERROR > "@,
        Some(p) => match home {
            Some(h) => if is_prefix_of(h, p) {
                replaced(p, h, "~"@)
            } else {
                p
            },
            None => p,
        },
    }
}

/// The full prompt text: the displayed directory and a separator.
pub open spec fn prompt_text(pwd: Option<Seq<char>>, home: Option<Seq<char>>) -> Seq<
    char,
> {
    abbreviated_path(pwd, home) + " > "@
}

/// The operations one render writes, given the redraw mode, the freshly
/// computed prompt, the command text to echo, and the cursor state at the
/// start of the call.
pub open spec fn display_ops(
    mode: Mode,
    prompt: Seq<char>,
    command: Option<Seq<char>>,
    cur: Cursor,
) -> Seq<OpModel> {
    let pre: Seq<OpModel> = if cur.has_moved {
        seq![OpModel::Save]
    } else {
        Seq::<OpModel>::empty()
    };
    let body: Seq<OpModel> = match mode {
        Mode::CarriageReturn => seq![OpModel::Cr, OpModel::Text(prompt)],
        Mode::NewLineAndCarriageReturn => seq![
            OpModel::NewLine,
            OpModel::Cr,
            OpModel::Text(prompt),
        ],
        Mode::Normal | Mode::Backspace => match command {
            Some(c) => seq![OpModel::Cr, OpModel::Text(prompt), OpModel::Text(c)],
            None => Seq::<OpModel>::empty(),
        },
    };
    let post: Seq<OpModel> = if cur.has_moved {
        if mode == Mode::Backspace && cur.position.row > cur.initial_position.row {
            seq![OpModel::Restore, OpModel::MoveLeftOne]
        } else {
            seq![OpModel::Restore]
        }
    } else {
        Seq::<OpModel>::empty()
    };
    pre + body + post
}

/// The prompt: its rendered text and the directory it shows.
pub struct Prompt {
    prompt: String,
    current_path: String,
}

impl Prompt {
    /// The rendered prompt text.
    pub closed spec fn text_view(&self) -> Seq<char> {
        self.prompt@
    }

    /// The displayed directory.
    pub closed spec fn path_view(&self) -> Seq<char> {
        self.current_path@
    }

    /// A prompt computed from the given working and home directories.
    pub fn new(pwd: &Option<String>, home: &Option<String>) -> (p: Prompt)
        ensures
            p.text_view() == prompt_text(opt_string_view(*pwd), opt_string_view(*home)),
            p.path_view() == abbreviated_path(
                opt_string_view(*pwd),
                opt_string_view(*home),
            ),
    {
        let mut p = Prompt { prompt: String::new(), current_path: String::new() };
        p.update_current_path(pwd, home);
        p
    }

    /// Recomputes the prompt from the given working and home directories.
    pub fn update_current_path(&mut self, pwd: &Option<String>, home: &Option<String>) -> (u:
        ())
        ensures
            final(self).text_view() == prompt_text(
                opt_string_view(*pwd),
                opt_string_view(*home),
            ),
            final(self).path_view() == abbreviated_path(
                opt_string_view(*pwd),
                opt_string_view(*home),
            ),
    {
        let base: String = match pwd {
            None => String::from_str("PWD ERROR > "),
            Some(p) => match home {
                Some(h) => {
                    if has_prefix(p.as_str(), h.as_str()) {
                        replace_all(p.as_str(), h.as_str(), "~")
                    } else {
                        p.clone()
                    }
                },
                None => p.clone(),
            },
        };
        self.prompt = base.clone().concat(" > ");
        self.current_path = base;
    }

    /// The character length of the rendered prompt.
    pub fn len(&self) -> (n: usize)
        ensures
            n == self.text_view().len(),
    {
        self.prompt.as_str().unicode_len()
    }

    /// The rendered prompt text.
    pub fn text(&self) -> (r: &str)
        ensures
            r@ == self.text_view(),
    {
        self.prompt.as_str()
    }

    /// Recomputes the prompt from the live working directory and redraws
    /// per the given mode. When the cursor had moved, the render is wrapped
    /// in save/restore, and a backspace redraw steps the tracker one column
    /// left; otherwise the caller must resync the tracker with the physical
    /// position after writing the operations.
    pub fn display(
        &mut self,
        mode: Mode,
        command: Option<&str>,
        cursor: &mut Cursor,
        pwd: &Option<String>,
        home: &Option<String>,
    ) -> (out: RenderOut)
        ensures
            final(self).text_view() == prompt_text(
                opt_string_view(*pwd),
                opt_string_view(*home),
            ),
            final(self).path_view() == abbreviated_path(
                opt_string_view(*pwd),
                opt_string_view(*home),
            ),
            crate::render::ops_model(out.ops@) == display_ops(
                mode,
                prompt_text(opt_string_view(*pwd), opt_string_view(*home)),
                opt_str_view(command),
                *old(cursor),
            ),
            out.resync == !old(cursor).has_moved,
            !old(cursor).has_moved ==> *final(cursor) == *old(cursor),
            old(cursor).has_moved ==> final(cursor).has_moved && final(cursor).initial_position == old(cursor).initial_position && final(cursor).position.line == old(cursor).position.line,
            old(cursor).has_moved && mode != Mode::Backspace ==> final(cursor).position
                == old(cursor).position,
            old(cursor).has_moved && mode == Mode::Backspace ==> final(cursor).position.row as int
                == (
            if old(cursor).position.row > old(cursor).initial_position.row {
                old(cursor).position.row - 1
            } else {
                old(cursor).position.row as int
            }),
    {
        let mut ops: Vec<TermOp> = Vec::new();
        let had_moved = cursor.has_moved;
        if had_moved {
            ops.push(TermOp::Save);
        }
        self.update_current_path(pwd, home);
        match mode {
            Mode::CarriageReturn => {
                ops.push(TermOp::Cr);
                ops.push(TermOp::Text(self.prompt.clone()));
            },
            Mode::NewLineAndCarriageReturn => {
                ops.push(TermOp::NewLine);
                ops.push(TermOp::Cr);
                ops.push(TermOp::Text(self.prompt.clone()));
            },
            Mode::Normal | Mode::Backspace => {
                if let Some(c) = command {
                    ops.push(TermOp::Cr);
                    ops.push(TermOp::Text(self.prompt.clone()));
                    ops.push(TermOp::Text(String::from_str(c)));
                }
            },
        }
        let resync: bool;
        if had_moved {
            ops.push(TermOp::Restore);
            if mode == Mode::Backspace {
                let moved = cursor.move_left();
                if moved {
                    ops.push(TermOp::MoveLeftOne);
                }
            }
            resync = false;
        } else {
            resync = true;
        }
        proof {
            assert(crate::render::ops_model(ops@) =~= display_ops(
                mode,
                prompt_text(opt_string_view(*pwd), opt_string_view(*home)),
                opt_str_view(command),
                *old(cursor),
            ));
        }
        RenderOut { ops, resync }
    }
}

/// Law: a carriage-return redraw is idempotent. With no intervening edits,
/// the cursor tracker is unmoved both times, and two renders of the same
/// prompt text write exactly the same operations, whatever command text or
/// cursor positions the two states hold.
pub proof fn lemma_carriage_return_redraw_idempotent(
    p: Seq<char>,
    c1: Cursor,
    c2: Cursor,
    cmd1: Option<Seq<char>>,
    cmd2: Option<Seq<char>>,
)
    requires
        !c1.has_moved,
        !c2.has_moved,
    ensures
        display_ops(Mode::CarriageReturn, p, cmd1, c1) == display_ops(
            Mode::CarriageReturn,
            p,
            cmd2,
            c2,
        ),
{
    assert(display_ops(Mode::CarriageReturn, p, cmd1, c1) =~= display_ops(
        Mode::CarriageReturn,
        p,
        cmd2,
        c2,
    ));
}

} // verus!
