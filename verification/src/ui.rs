//! What the editor does after its panels were drawn.

use vstd::prelude::*;
use crate::level::Level;
use crate::model::{clamped, EditorState};

verus! {

/// Ends a frame of the editor UI. An edit made in the panels (`changed`)
/// clamps the selection and marks the level changed; once the user is no
/// longer typing or dragging, the pending edit is due to be finished (the
/// result).
pub fn finish_ui_frame<O: Clone, D: Clone>(
    editor: &mut EditorState<O, D>,
    level: &Level<O, D>,
    changed: bool,
    editing_interactively: bool,
) -> (finish_pending: bool)
    ensures
        finish_pending == !editing_interactively,
        final(editor).history == old(editor).history,
        final(editor).focus_test_timer == old(editor).focus_test_timer,
        changed ==> {
            &&& final(editor).selected_object == clamped(old(editor).selected_object, level.objects.len() as int)
            &&& final(editor).dirty
            &&& final(editor).refresh_pending
            &&& final(editor).status@ == "edited level data"@
        },
        !changed ==> *final(editor) == *old(editor),
{
    if changed {
        editor.clamp_selection(level);
        editor.mark_changed();
    }
    !editing_interactively
}

} // verus!
