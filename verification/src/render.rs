//! Rendering instructions. Every redraw is computed as a sequence of
//! terminal operations that the caller writes out and flushes; the library
//! never touches the terminal itself.

use vstd::prelude::*;

verus! {

/// One terminal operation.
#[derive(Debug)]
pub enum TermOp {
    /// Literal text.
    Text(String),
    /// Carriage return: back to column zero.
    Cr,
    /// Advance one terminal line.
    NewLine,
    /// That many blank characters.
    Spaces(usize),
    /// Save the physical cursor position.
    Save,
    /// Restore the saved cursor position.
    Restore,
    /// One column left.
    MoveLeftOne,
    /// One column right.
    MoveRightOne,
    /// Absolute placement: column, then terminal line.
    MoveTo(u16, u16),
}

/// The mathematical value of one terminal operation.
#[verifier::ext_equal]
pub enum OpModel {
    Text(Seq<char>),
    Cr,
    NewLine,
    Spaces(int),
    Save,
    Restore,
    MoveLeftOne,
    MoveRightOne,
    MoveTo(int, int),
}

/// The value of one operation.
pub open spec fn op_model(op: TermOp) -> OpModel {
    match op {
        TermOp::Text(s) => OpModel::Text(s@),
        TermOp::Cr => OpModel::Cr,
        TermOp::NewLine => OpModel::NewLine,
        TermOp::Spaces(n) => OpModel::Spaces(n as int),
        TermOp::Save => OpModel::Save,
        TermOp::Restore => OpModel::Restore,
        TermOp::MoveLeftOne => OpModel::MoveLeftOne,
        TermOp::MoveRightOne => OpModel::MoveRightOne,
        TermOp::MoveTo(r, l) => OpModel::MoveTo(r as int, l as int),
    }
}

/// The values of a sequence of operations.
pub open spec fn ops_model(ops: Seq<TermOp>) -> Seq<OpModel> {
    ops.map_values(|o: TermOp| op_model(o))
}

/// The operations that blank a drawn line of the given width while leaving
/// the physical cursor where it was.
pub open spec fn clear_line_model(len: int) -> Seq<OpModel> {
    seq![OpModel::Save, OpModel::Cr, OpModel::Spaces(len), OpModel::Restore]
}

/// Computes the operations that blank a drawn line of the given width.
pub fn clear_line(len: usize) -> (ops: Vec<TermOp>)
    ensures
        ops_model(ops@) == clear_line_model(len as int),
{
    let mut ops: Vec<TermOp> = Vec::new();
    ops.push(TermOp::Save);
    ops.push(TermOp::Cr);
    ops.push(TermOp::Spaces(len));
    ops.push(TermOp::Restore);
    proof {
        assert(ops_model(ops@) =~= clear_line_model(len as int));
    }
    ops
}

/// What a render call hands back: the operations to write, and whether the
/// caller must read the physical cursor position back into the tracker.
pub struct RenderOut {
    pub ops: Vec<TermOp>,
    pub resync: bool,
}

/// Appends every operation of `more` to `ops`, in order.
pub fn extend_ops(ops: &mut Vec<TermOp>, more: Vec<TermOp>) -> (u: ())
    ensures
        final(ops)@ == old(ops)@ + more@,
{
    let ghost whole = old(ops)@ + more@;
    let mut more = more;
    while more.len() > 0
        invariant
            ops@ + more@ == whole,
        decreases more.len(),
    {
        let op = more.remove(0);
        ops.push(op);
        proof {
            assert(ops@ + more@ =~= whole);
        }
    }
    proof {
        assert(ops@ =~= ops@ + more@);
    }
}

} // verus!
