//! Saving the level and starting playtests on request.

use vstd::prelude::*;
use vstd::string::StringExecFns;
use crate::commands::EditorCommand;
use crate::model::EditorState;

verus! {

/// Whether `commands` hold `wanted`.
pub fn has_command(commands: &Vec<EditorCommand>, wanted: EditorCommand) -> (found: bool)
    ensures
        found == commands@.contains(wanted),
{
    let mut i: usize = 0;
    while i < commands.len()
        invariant
            0 <= i <= commands.len(),
            forall|j: int| 0 <= j < i ==> commands@[j] != wanted,
        decreases commands.len() - i,
    {
        if commands[i] == wanted {
            assert(commands@[i as int] == wanted);
            return true;
        }
        i = i + 1;
    }
    false
}

/// Whether this frame's commands ask for a save. When they do, the pending
/// edit is to be finished and the level saved.
pub fn apply_saves(commands: &Vec<EditorCommand>) -> (save: bool)
    ensures
        save == commands@.contains(EditorCommand::Save),
{
    has_command(commands, EditorCommand::Save)
}

/// Whether this frame's commands ask for a playtest. When they do, the
/// pending edit is to be finished and play started.
pub fn apply_tests(commands: &Vec<EditorCommand>) -> (test: bool)
    ensures
        test == commands@.contains(EditorCommand::Test),
{
    has_command(commands, EditorCommand::Test)
}

/// Reports how a save went: on success the level is no longer dirty and the
/// status names the file written; on failure the status gives the reason.
pub fn record_save_result<O, D>(editor: &mut EditorState<O, D>, result: Result<String, String>)
    ensures
        final(editor).selected_object == old(editor).selected_object,
        final(editor).refresh_pending == old(editor).refresh_pending,
        final(editor).history == old(editor).history,
        final(editor).focus_test_timer == old(editor).focus_test_timer,
        match result {
            Ok(path) => !final(editor).dirty && final(editor).status@ == "saved "@ + path@,
            Err(reason) => final(editor).dirty == old(editor).dirty && final(editor).status@ == "save failed: "@ + reason@,
        },
{
    match result {
        Ok(path) => {
            editor.dirty = false;
            let mut status = "saved ".to_string();
            status.append(path.as_str());
            editor.status = status;
        },
        Err(reason) => {
            let mut status = "save failed: ".to_string();
            status.append(reason.as_str());
            editor.status = status;
        },
    }
}

} // verus!
