//! The commands a host line buffer understands, and what each does to a line.

use vstd::prelude::*;

verus! {

/// One editing command for the host's line buffer. Positions count characters
/// from the start of the line; a range runs from `from` up to, not including,
/// `to`.
#[derive(Debug, PartialEq, Eq)]
pub enum BufferPrimitive {
    /// Leave the line as it is.
    NoOp,
    /// Put `text` in front of the character at `position`.
    InsertAt { position: usize, text: String },
    /// Delete the range and discard it.
    KillRange { from: usize, to: usize },
    /// Put `text` in the place of the range.
    ReplaceRange { from: usize, to: usize, text: String },
}

/// A [`BufferPrimitive`] as a mathematical value.
pub enum PrimitiveView {
    NoOp,
    InsertAt { position: int, text: Seq<char> },
    KillRange { from: int, to: int },
    ReplaceRange { from: int, to: int, text: Seq<char> },
}

impl View for BufferPrimitive {
    type V = PrimitiveView;

    open spec fn view(&self) -> PrimitiveView {
        match *self {
            BufferPrimitive::NoOp => PrimitiveView::NoOp,
            BufferPrimitive::InsertAt { position, text } => PrimitiveView::InsertAt {
                position: position as int,
                text: text@,
            },
            BufferPrimitive::KillRange { from, to } => PrimitiveView::KillRange {
                from: from as int,
                to: to as int,
            },
            BufferPrimitive::ReplaceRange { from, to, text } => PrimitiveView::ReplaceRange {
                from: from as int,
                to: to as int,
                text: text@,
            },
        }
    }
}

impl PrimitiveView {
    /// Every position of the command lies inside `line`, and a range does not
    /// end before it starts.
    pub open spec fn fits(self, line: Seq<char>) -> bool {
        match self {
            PrimitiveView::NoOp => true,
            PrimitiveView::InsertAt { position, .. } => 0 <= position <= line.len(),
            PrimitiveView::KillRange { from, to } => 0 <= from <= to <= line.len(),
            PrimitiveView::ReplaceRange { from, to, .. } => 0 <= from <= to <= line.len(),
        }
    }

    /// The line that the host holds after it has applied the command to `line`.
    pub open spec fn apply(self, line: Seq<char>) -> Seq<char> {
        match self {
            PrimitiveView::NoOp => line,
            PrimitiveView::InsertAt { position, text } => line.take(position) + text + line.skip(
                position,
            ),
            PrimitiveView::KillRange { from, to } => line.take(from) + line.skip(to),
            PrimitiveView::ReplaceRange { from, to, text } => line.take(from) + text + line.skip(
                to,
            ),
        }
    }

    /// The command covers `line` from its first to its last character.
    pub open spec fn spans_whole(self, line: Seq<char>) -> bool {
        match self {
            PrimitiveView::KillRange { from, to } => from == 0 && to == line.len(),
            PrimitiveView::ReplaceRange { from, to, .. } => from == 0 && to == line.len(),
            _ => false,
        }
    }
}

/// The command that turns the line `current` into `new_content`. The cursor
/// does not enter into the choice: a changed line is always replaced whole.
pub open spec fn reconcile_spec(
    new_content: Seq<char>,
    current: Seq<char>,
    cursor: int,
) -> PrimitiveView {
    if new_content.len() == 0 {
        if current.len() == 0 {
            PrimitiveView::NoOp
        } else {
            PrimitiveView::KillRange { from: 0, to: current.len() as int }
        }
    } else if current.len() == 0 {
        PrimitiveView::InsertAt { position: 0, text: new_content }
    } else {
        PrimitiveView::ReplaceRange { from: 0, to: current.len() as int, text: new_content }
    }
}

/// Clearing: with nothing as the new content, a line that holds something is
/// killed from its first to its last character, and an empty line is left
/// alone, wherever the cursor stands.
pub proof fn law_empty_content_clears_line(current: Seq<char>, cursor: int)
    ensures
        current.len() > 0 ==> reconcile_spec(Seq::empty(), current, cursor)
            == (PrimitiveView::KillRange { from: 0, to: current.len() as int }),
        current.len() > 0 ==> reconcile_spec(Seq::empty(), current, cursor).spans_whole(current),
        current.len() == 0 ==> reconcile_spec(Seq::empty(), current, cursor)
            == PrimitiveView::NoOp,
{
}

/// Filling: on an empty line, new content is inserted at the start, and the
/// insertion carries exactly that content.
pub proof fn law_content_is_inserted_into_empty_line(new_content: Seq<char>, cursor: int)
    requires
        new_content.len() > 0,
    ensures
        reconcile_spec(new_content, Seq::empty(), cursor) == (PrimitiveView::InsertAt {
            position: 0,
            text: new_content,
        }),
{
}

/// Replacing: where both the line and the new content hold something, the
/// whole line is replaced by exactly the new content, and two cursor positions
/// never give two different commands.
pub proof fn law_replacement_ignores_cursor(
    new_content: Seq<char>,
    current: Seq<char>,
    cursor: int,
    other_cursor: int,
)
    requires
        new_content.len() > 0,
        current.len() > 0,
    ensures
        reconcile_spec(new_content, current, cursor) == (PrimitiveView::ReplaceRange {
            from: 0,
            to: current.len() as int,
            text: new_content,
        }),
        reconcile_spec(new_content, current, cursor).spans_whole(current),
        reconcile_spec(new_content, current, cursor) == reconcile_spec(
            new_content,
            current,
            other_cursor,
        ),
{
}

/// Whatever the inputs, the chosen command fits the line, and a host that
/// applies it holds exactly the new content afterwards.
pub proof fn law_reconciled_line_is_new_content(
    new_content: Seq<char>,
    current: Seq<char>,
    cursor: int,
)
    ensures
        reconcile_spec(new_content, current, cursor).fits(current),
        reconcile_spec(new_content, current, cursor).apply(current) == new_content,
{
    let p = reconcile_spec(new_content, current, cursor);
    let n = current.len() as int;
    assert(current.take(0) =~= Seq::<char>::empty());
    assert(current.skip(n) =~= Seq::<char>::empty());
    assert(p.apply(current) =~= new_content);
}

} // verus!
