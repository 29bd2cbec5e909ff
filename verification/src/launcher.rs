//! The entry point a host binds to a key: from what the editor session gave
//! back to the one command for the line buffer.

use vstd::prelude::*;
use crate::primitive::{
    law_reconciled_line_is_new_content, reconcile_spec, BufferPrimitive, PrimitiveView,
};
use crate::session::{edited_text_spec, EditorError};
use crate::text::{is_blank_spec, lemma_trim_ignores_final_newline, same_after_trim, trim_spec};

verus! {

/// Opens the line under the cursor in the user's editor and brings the result
/// back into the line.
pub struct EditorLauncher;

/// What an editor session gave back, as a mathematical value: an error, a
/// cleared text (`None`), or the edited text.
pub open spec fn outcome_view(outcome: Result<Option<String>, EditorError>) -> Result<
    Option<Seq<char>>,
    EditorError,
> {
    match outcome {
        Ok(Some(text)) => Ok(Some(text@)),
        Ok(None) => Ok(None),
        Err(e) => Err(e),
    }
}

/// The command for the line `current` after a session that ended in
/// `outcome`: nothing after a failure, nothing where the edited text and the
/// line are the same once trimmed, a cleared line where the text was cleared,
/// and the reconciling command otherwise.
pub open spec fn response_spec(
    outcome: Result<Option<Seq<char>>, EditorError>,
    current: Seq<char>,
    cursor: int,
) -> PrimitiveView {
    match outcome {
        Ok(Some(edited)) => if trim_spec(edited) == trim_spec(current) {
            PrimitiveView::NoOp
        } else {
            reconcile_spec(edited, current, cursor)
        },
        Ok(None) => reconcile_spec(Seq::empty(), current, cursor),
        Err(_) => PrimitiveView::NoOp,
    }
}

impl EditorLauncher {
    pub fn new() -> (r: Self)
        ensures
            r == EditorLauncher,
    {
        EditorLauncher
    }

    /// Chooses the one command that makes the line `current_text` read
    /// `new_content`. The choice does not depend on `cursor_pos`, which may
    /// lie anywhere, also beyond the end of the line.
    pub fn create_line_replacement_command(
        new_content: &str,
        current_text: &str,
        cursor_pos: usize,
    ) -> (r: BufferPrimitive)
        ensures
            r@ == reconcile_spec(new_content@, current_text@, cursor_pos as int),
            r@.fits(current_text@),
    {
        if new_content.is_empty() {
            if current_text.is_empty() {
                BufferPrimitive::NoOp
            } else {
                BufferPrimitive::KillRange { from: 0, to: current_text.unicode_len() }
            }
        } else if current_text.is_empty() {
            BufferPrimitive::InsertAt { position: 0, text: new_content.to_owned() }
        } else {
            BufferPrimitive::ReplaceRange {
                from: 0,
                to: current_text.unicode_len(),
                text: new_content.to_owned(),
            }
        }
    }

    /// Chooses the command for the line `current_text` once the editor
    /// session has ended in `outcome`. A failed session and an unchanged text
    /// both leave the line alone.
    pub fn respond(
        outcome: Result<Option<String>, EditorError>,
        current_text: &str,
        cursor_pos: usize,
    ) -> (r: BufferPrimitive)
        ensures
            r@ == response_spec(outcome_view(outcome), current_text@, cursor_pos as int),
            r@.fits(current_text@),
    {
        match outcome {
            Ok(Some(edited)) => {
                if same_after_trim(edited.as_str(), current_text) {
                    BufferPrimitive::NoOp
                } else {
                    Self::create_line_replacement_command(
                        edited.as_str(),
                        current_text,
                        cursor_pos,
                    )
                }
            },
            Ok(None) => {
                proof {
                    reveal_strlit("");
                    assert(""@ =~= Seq::<char>::empty());
                }
                Self::create_line_replacement_command("", current_text, cursor_pos)
            },
            Err(_) => BufferPrimitive::NoOp,
        }
    }
}

/// An edit that changes nothing but whitespace at the ends changes nothing on
/// the line: the command is `NoOp`.
pub proof fn law_unchanged_text_is_noop(edited: Seq<char>, current: Seq<char>, cursor: int)
    requires
        trim_spec(edited) == trim_spec(current),
    ensures
        response_spec(Ok(Some(edited)), current, cursor) == PrimitiveView::NoOp,
{
}

/// Round trip: where the editor leaves in the scratch file what the line
/// held, give or take whitespace at the ends, the session's result changes
/// nothing on the line. A blank line that is not empty is the exception: the
/// session reports its text as cleared, and the line is killed.
pub proof fn law_round_trip_is_noop(content: Seq<char>, current: Seq<char>, cursor: int)
    requires
        trim_spec(content) == trim_spec(current),
        !is_blank_spec(content) || current.len() == 0,
    ensures
        response_spec(Ok(edited_text_spec(content)), current, cursor) == PrimitiveView::NoOp,
{
    if !is_blank_spec(content) {
        lemma_trim_ignores_final_newline(content);
    }
}

/// Once the host has applied the command chosen for an edited text, its line
/// reads as that text does, give or take whitespace at the ends; where the
/// command is not `NoOp`, it reads exactly as the text.
pub proof fn law_response_brings_edited_text(edited: Seq<char>, current: Seq<char>, cursor: int)
    ensures
        response_spec(Ok(Some(edited)), current, cursor).fits(current),
        trim_spec(response_spec(Ok(Some(edited)), current, cursor).apply(current)) == trim_spec(
            edited,
        ),
        response_spec(Ok(Some(edited)), current, cursor) != PrimitiveView::NoOp
            ==> response_spec(Ok(Some(edited)), current, cursor).apply(current) == edited,
{
    law_reconciled_line_is_new_content(edited, current, cursor);
}

/// A failed session never touches the line.
pub proof fn law_failure_is_noop(error: EditorError, current: Seq<char>, cursor: int)
    ensures
        response_spec(Err(error), current, cursor) == PrimitiveView::NoOp,
{
}

} // verus!
