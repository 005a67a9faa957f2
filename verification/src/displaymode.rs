//! The redraw strategy a single render call uses.

use vstd::prelude::*;

verus! {

/// How the prompt renderer redraws the current line.
#[derive(Clone, Copy, PartialEq, Eq, Structural, Debug)]
pub enum Mode {
    /// Return to column zero and print the prompt only.
    CarriageReturn,
    /// Advance one line, return to column zero, print the prompt only.
    NewLineAndCarriageReturn,
    /// Return to column zero and print the prompt and the whole command.
    Normal,
    /// As `Normal`, after a character was erased from the buffer.
    Backspace,
}

} // verus!
