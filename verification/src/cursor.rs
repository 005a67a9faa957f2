//! The cursor tracker: the column where input begins, the current column,
//! and whether the last render used save/restore rather than a full resync.
//!
//! The tracker only accounts for positions; the physical cursor moves it
//! decides are returned to the caller as rendering instructions.

use vstd::prelude::*;

verus! {

/// A terminal position: `row` is the column offset, `line` the terminal row.
#[derive(Clone, Copy, PartialEq, Eq, Structural, Debug)]
#[verifier::ext_equal]
pub struct Position {
    pub row: u16,
    pub line: u16,
}

/// The cursor state for the active input line.
#[verifier::ext_equal]
pub struct Cursor {
    /// The column where the prompt ends and input begins.
    pub initial_position: Position,
    /// The current column.
    pub position: Position,
    /// Whether the last render used cursor save/restore instead of a resync.
    pub has_moved: bool,
}

impl Cursor {
    /// A cursor that starts at the given position, which is also where
    /// input begins.
    pub fn new(position: Position) -> (c: Cursor)
        ensures
            c.initial_position == position,
            c.position == position,
            !c.has_moved,
    {
        Cursor { initial_position: position, position, has_moved: false }
    }

    /// Steps one column left if the result stays at or right of where
    /// input begins; otherwise a no-op with nothing emitted. Returns
    /// whether a physical one-column left move must be emitted.
    pub fn move_left(&mut self) -> (moved: bool)
        ensures
            moved == (old(self).position.row > old(self).initial_position.row),
            moved ==> final(self).position.row == old(self).position.row - 1
                && final(self).has_moved,
            !moved ==> final(self).position.row == old(self).position.row
                && final(self).has_moved == old(self).has_moved,
            final(self).position.line == old(self).position.line,
            final(self).initial_position == old(self).initial_position,
    {
        if self.position.row > self.initial_position.row {
            self.position.row = self.position.row - 1;
            self.has_moved = true;
            true
        } else {
            false
        }
    }

    /// Steps one column right while the column stays under the given
    /// bound; at or past the bound (so always when the bound is zero) a
    /// no-op with nothing emitted. Returns whether a physical one-column
    /// right move must be emitted.
    pub fn move_right(&mut self, bound: u16) -> (moved: bool)
        ensures
            moved == (old(self).position.row < bound),
            moved ==> final(self).position.row == old(self).position.row + 1
                && final(self).has_moved,
            !moved ==> final(self).position.row == old(self).position.row
                && final(self).has_moved == old(self).has_moved,
            final(self).position.line == old(self).position.line,
            final(self).initial_position == old(self).initial_position,
    {
        if self.position.row < bound {
            self.position.row = self.position.row + 1;
            self.has_moved = true;
            true
        } else {
            false
        }
    }

    /// Adopts the real terminal position after a render, clearing
    /// `has_moved`; when a fresh prompt line starts, the position where
    /// input begins is reset as well.
    pub fn update(&mut self, position: Position, reset_initial: bool) -> (u: ())
        ensures
            final(self).position == position,
            !final(self).has_moved,
            reset_initial ==> final(self).initial_position == position,
            !reset_initial ==> final(self).initial_position == old(
                self,
            ).initial_position,
    {
        self.position = position;
        self.has_moved = false;
        if reset_initial {
            self.initial_position = position;
        }
    }

    /// Records an absolute placement; the caller emits the physical move.
    pub fn move_to(&mut self, position: Position) -> (u: ())
        ensures
            final(self).position == position,
            !final(self).has_moved,
            final(self).initial_position == old(self).initial_position,
    {
        self.position = position;
        self.has_moved = false;
    }
}

} // verus!
