//! The history buffer: an append-only log of submitted commands and the
//! bounded up/down recall over it. The browse index is 0 when not browsing
//! and 1 for the most recent entry.

use vstd::prelude::*;

use crate::command::Command;
use crate::cursor::Cursor;
use crate::displaymode::Mode;
use crate::keys::{KeyCode, KeyEvent};
use crate::prompt::{display_ops, opt_string_view, prompt_text, Prompt};
use crate::render::{clear_line, clear_line_model, extend_ops, ops_model, OpModel, RenderOut,
    TermOp};

verus! {

/// The width a recall redraw blanks: the prior entry, the prompt, and some
/// padding, capped at the machine word.
pub open spec fn clear_width(entry: int, prompt: int, pad: int) -> int {
    if entry + prompt + pad > usize::MAX {
        usize::MAX as int
    } else {
        entry + prompt + pad
    }
}

/// The browse index one Up press yields: one step older, bounded by the
/// number of entries.
pub open spec fn nav_up_index(len: nat, idx: nat) -> nat {
    if idx < len {
        (idx + 1) as nat
    } else {
        idx
    }
}

/// The browse index after `k` Up presses from a fresh line.
pub open spec fn ups_index(len: nat, k: nat) -> nat
    decreases k,
{
    if k == 0 {
        0
    } else {
        nav_up_index(len, ups_index(len, (k - 1) as nat))
    }
}

/// Law: with `len` entries, each of the first `len` Up presses steps one
/// entry older: after the `k`-th press the browse index is `k`, so the
/// entry at offset `len - k` is shown — the newest first, then in order
/// down to the oldest.
pub proof fn lemma_up_recall_order(len: nat, k: nat)
    requires
        k <= len,
    ensures
        ups_index(len, k) == k,
    decreases k,
{
    if k > 0 {
        lemma_up_recall_order(len, (k - 1) as nat);
    }
}

/// Law: once every entry has been recalled, a further Up press is a no-op:
/// the browse index stays at `len`.
pub proof fn lemma_up_recall_saturates(len: nat)
    ensures
        ups_index(len, len + 1) == len,
{
    lemma_up_recall_order(len, len);
}

/// Everything one navigation call decides: whether it acted, the browse
/// index afterwards, the recalled text, whether the arguments were reset,
/// the operations written, and whether the caller must resync the cursor.
#[verifier::ext_equal]
pub struct NavOutcome {
    pub active: bool,
    pub idx: int,
    pub text: Seq<char>,
    pub args_cleared: bool,
    pub ops: Seq<OpModel>,
    pub resync: bool,
}

/// The outcome of one Up or Down press: Up steps one entry older while one
/// exists; Down steps one newer while deep in the history; Down from the
/// most recent entry returns to an empty line and stops browsing; anything
/// else changes nothing. `old_prompt_len` is the prompt width used to blank
/// the prior line; `ptext` the prompt recomputed for the redraw.
pub open spec fn nav_outcome(
    code: KeyCode,
    len: int,
    oidx: int,
    texts: Seq<Seq<char>>,
    old_prompt_len: int,
    ptext: Seq<char>,
    cur: Cursor,
) -> NavOutcome {
    if code == KeyCode::Up && oidx < len {
        NavOutcome {
            active: true,
            idx: oidx + 1,
            text: texts[len - oidx - 1],
            args_cleared: false,
            ops: (if oidx >= 1 {
                clear_line_model(clear_width(
                    texts[len - oidx].len() as int,
                    old_prompt_len,
                    1,
                ))
            } else {
                Seq::<OpModel>::empty()
            }) + display_ops(Mode::Normal, ptext, Some(texts[len - oidx - 1]), cur),
            resync: !cur.has_moved,
        }
    } else if code == KeyCode::Down && oidx >= 2 {
        NavOutcome {
            active: true,
            idx: oidx - 1,
            text: texts[len - oidx + 1],
            args_cleared: false,
            ops: clear_line_model(clear_width(
                texts[len - oidx].len() as int,
                old_prompt_len,
                1,
            )) + display_ops(Mode::Normal, ptext, Some(texts[len - oidx + 1]), cur),
            resync: !cur.has_moved,
        }
    } else if code == KeyCode::Down && oidx == 1 {
        NavOutcome {
            active: true,
            idx: 0,
            text: Seq::<char>::empty(),
            args_cleared: true,
            ops: clear_line_model(clear_width(
                texts[len - 1].len() as int,
                old_prompt_len,
                3,
            )) + display_ops(Mode::Normal, ptext, Some(Seq::<char>::empty()), cur),
            resync: !cur.has_moved,
        }
    } else {
        NavOutcome {
            active: false,
            idx: oidx,
            text: Seq::<char>::empty(),
            args_cleared: false,
            ops: Seq::<OpModel>::empty(),
            resync: false,
        }
    }
}

/// Law: the browse index a navigation call reports for an Up press is
/// exactly the bounded step `nav_up_index`, whatever else the call renders.
pub proof fn lemma_nav_up_is_bounded_step(
    len: nat,
    idx: nat,
    texts: Seq<Seq<char>>,
    old_prompt_len: int,
    ptext: Seq<char>,
    cur: Cursor,
)
    requires
        idx <= len,
    ensures
        nav_outcome(
            KeyCode::Up,
            len as int,
            idx as int,
            texts,
            old_prompt_len,
            ptext,
            cur,
        ).idx == nav_up_index(len, idx),
{
}

/// Law: after pushing `len` commands, the `k`-th of `len` successive Up
/// presses from a fresh line recalls the entry at offset `len - k`: the
/// newest command first, down in order to the oldest.
pub proof fn lemma_up_recall_shows_each(
    len: nat,
    k: nat,
    texts: Seq<Seq<char>>,
    old_prompt_len: int,
    ptext: Seq<char>,
    cur: Cursor,
)
    requires
        1 <= k <= len,
        texts.len() == len,
    ensures
        nav_outcome(
            KeyCode::Up,
            len as int,
            ups_index(len, (k - 1) as nat) as int,
            texts,
            old_prompt_len,
            ptext,
            cur,
        ).text == texts[len - k],
{
    lemma_up_recall_order(len, (k - 1) as nat);
}

/// The ordered log of submitted commands and the browse index.
pub struct History {
    pub items: Vec<Command>,
    pub current_index: usize,
}

impl History {
    /// The texts of the entries, oldest first.
    pub open spec fn entry_texts(&self) -> Seq<Seq<char>> {
        Seq::new(self.items@.len(), |i: int| self.items@[i].text())
    }

    /// The browse index never exceeds the number of entries.
    pub open spec fn wf(&self) -> bool {
        self.current_index <= self.items@.len()
    }

    /// An empty history, not browsing.
    pub fn new() -> (h: History)
        ensures
            h.entry_texts() == Seq::<Seq<char>>::empty(),
            h.current_index == 0,
            h.wf(),
    {
        let h = History { items: Vec::new(), current_index: 0 };
        proof {
            assert(h.entry_texts() =~= Seq::<Seq<char>>::empty());
        }
        h
    }

    /// Appends one submitted command; browsing state is untouched.
    pub fn push(&mut self, command: Command) -> (u: ())
        ensures
            final(self).entry_texts() == old(self).entry_texts().push(command.text()),
            final(self).current_index == old(self).current_index,
            old(self).wf() ==> final(self).wf(),
    {
        self.items.push(command);
        proof {
            assert(self.entry_texts() =~= old(self).entry_texts().push(
                command.text(),
            ));
        }
    }

    /// Handles one Up or Down press while editing.
    ///
    /// Up steps to the next older entry while one exists; Down while deep in
    /// the history steps one entry newer; Down from the most recent entry
    /// returns to an empty line and stops browsing; Down on a fresh line,
    /// Up past the oldest entry, and any other key change nothing. A step
    /// first blanks the line the prior entry occupied (on the first Up
    /// press there is none), then redraws prompt and recalled text.
    pub fn handle_history(
        &mut self,
        ev: &KeyEvent,
        current_command: &mut Command,
        prompt: &mut Prompt,
        cursor: &mut Cursor,
        pwd: &Option<String>,
        home: &Option<String>,
    ) -> (out: RenderOut)
        requires
            old(self).wf(),
    ensures
        final(self).wf(),
        final(self).entry_texts() == old(self).entry_texts(),
        *final(cursor) == *old(cursor),
        ({
            let o = nav_outcome(
                ev.code,
                old(self).entry_texts().len() as int,
                old(self).current_index as int,
                old(self).entry_texts(),
                old(prompt).text_view().len() as int,
                prompt_text(opt_string_view(*pwd), opt_string_view(*home)),
                *old(cursor),
            );
            &&& final(self).current_index == o.idx
            &&& ops_model(out.ops@) == o.ops
            &&& out.resync == o.resync
            &&& o.active ==> final(current_command).text() == o.text
            &&& o.active && !o.args_cleared ==> final(current_command).args_view()
                == old(current_command).args_view()
            &&& o.args_cleared ==> final(current_command).args_view() == Seq::<
                Seq<char>,
            >::empty()
            &&& o.active ==> final(prompt).text_view() == prompt_text(
                opt_string_view(*pwd),
                opt_string_view(*home),
            )
            &&& !o.active ==> *final(current_command) == *old(current_command)
                && *final(prompt) == *old(prompt)
        }),
    {
        let len = self.items.len();
        let is_up = matches!(ev.code, KeyCode::Up);
        let is_down = matches!(ev.code, KeyCode::Down);
        if is_up && self.current_index < len {
            self.current_index = self.current_index + 1;
            let mut ops: Vec<TermOp> = Vec::new();
            if self.current_index > 1 {
                let prior = len - (self.current_index - 1);
                let w = self.items[prior].len().saturating_add(
                    prompt.len(),
                ).saturating_add(1);
                ops = clear_line(w);
            }
            let entry = String::from_str(
                self.items[len - self.current_index].get_command(),
            );
            current_command.set(entry);
            let shown = prompt.display(
                Mode::Normal,
                Some(current_command.get_command()),
                cursor,
                pwd,
                home,
            );
            let resync = shown.resync;
            let ghost pre = ops@;
            let ghost sops = shown.ops@;
            extend_ops(&mut ops, shown.ops);
            proof {
                assert(ops@ == pre + sops);
                assert(ops_model(pre + sops) =~= ops_model(pre) + ops_model(sops));
                assert(*cursor =~= *old(cursor));
            }
            RenderOut { ops, resync }
        } else if is_down && self.current_index > 1 {
            self.current_index = self.current_index - 1;
            let prior = len - (self.current_index + 1);
            let w = self.items[prior].len().saturating_add(prompt.len()).saturating_add(
                1,
            );
            let mut ops = clear_line(w);
            let entry = String::from_str(
                self.items[len - self.current_index].get_command(),
            );
            current_command.set(entry);
            let shown = prompt.display(
                Mode::Normal,
                Some(current_command.get_command()),
                cursor,
                pwd,
                home,
            );
            let resync = shown.resync;
            let ghost pre = ops@;
            let ghost sops = shown.ops@;
            extend_ops(&mut ops, shown.ops);
            proof {
                assert(ops@ == pre + sops);
                assert(ops_model(pre + sops) =~= ops_model(pre) + ops_model(sops));
                assert(*cursor =~= *old(cursor));
            }
            RenderOut { ops, resync }
        } else if is_down && self.current_index == 1 {
            self.current_index = 0;
            let w = self.items[len - 1].len().saturating_add(prompt.len()).saturating_add(
                3,
            );
            let mut ops = clear_line(w);
            *current_command = Command::default();
            let shown = prompt.display(
                Mode::Normal,
                Some(current_command.get_command()),
                cursor,
                pwd,
                home,
            );
            let resync = shown.resync;
            let ghost pre = ops@;
            let ghost sops = shown.ops@;
            extend_ops(&mut ops, shown.ops);
            proof {
                assert(ops@ == pre + sops);
                assert(ops_model(pre + sops) =~= ops_model(pre) + ops_model(sops));
                assert(*cursor =~= *old(cursor));
            }
            RenderOut { ops, resync }
        } else {
            proof {
                assert(ops_model(Seq::<TermOp>::empty()) =~= Seq::<OpModel>::empty());
            }
            RenderOut { ops: Vec::new(), resync: false }
        }
    }
}

} // verus!
