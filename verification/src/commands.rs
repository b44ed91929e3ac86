//! The commands that editor input and UI emit.

use vstd::prelude::*;

verus! {

/// A request to the editor, produced by a shortcut, a button or a focus change.
#[derive(Clone, Copy, Debug, PartialEq, Eq, Structural)]
pub enum EditorCommand {
    Save,
    Test,
    FinishPendingEdit,
    Undo,
    Redo,
    Duplicate,
    SelectNearestToPlayer,
    AddObjectAtPlayer,
    DeleteSelected,
}

} // verus!
