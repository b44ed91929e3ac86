//! Keyboard shortcuts of the editor.

use vstd::prelude::*;
use crate::commands::EditorCommand;
use crate::input::{EguiInput, InputState, Key, Modifiers};

verus! {

/// `key` held with control only.
pub open spec fn with_ctrl(key: Key) -> EguiInput {
    EguiInput { key, modifiers: Modifiers { alt: false, ctrl: true, shift: false, mac_cmd: false, command: false } }
}

/// `key` pressed on its own.
pub open spec fn plain(key: Key) -> EguiInput {
    EguiInput { key, modifiers: Modifiers { alt: false, ctrl: false, shift: false, mac_cmd: false, command: false } }
}

/// The editor's shortcuts, in the order their commands are emitted.
pub open spec fn shortcut_table() -> Seq<(EguiInput, EditorCommand)> {
    seq![
        (with_ctrl(Key::S), EditorCommand::Save),
        (with_ctrl(Key::Z), EditorCommand::Undo),
        (with_ctrl(Key::Y), EditorCommand::Redo),
        (with_ctrl(Key::D), EditorCommand::Duplicate),
        (plain(Key::Delete), EditorCommand::DeleteSelected),
        (plain(Key::F), EditorCommand::SelectNearestToPlayer),
    ]
}

/// The commands of the shortcuts in `table` whose input is among `pressed`, in table order.
pub open spec fn triggered(table: Seq<(EguiInput, EditorCommand)>, pressed: Set<EguiInput>) -> Seq<EditorCommand>
    decreases table.len(),
{
    if table.len() == 0 {
        seq![]
    } else {
        let earlier = triggered(table.drop_last(), pressed);
        if pressed.contains(table.last().0) {
            earlier.push(table.last().1)
        } else {
            earlier
        }
    }
}

/// The editor's shortcut table.
fn shortcuts() -> (table: Vec<(EguiInput, EditorCommand)>)
    ensures
        table@ == shortcut_table(),
{
    let table = vec![
        (EguiInput::with(Key::S, Modifiers::ctrl()), EditorCommand::Save),
        (EguiInput::with(Key::Z, Modifiers::ctrl()), EditorCommand::Undo),
        (EguiInput::with(Key::Y, Modifiers::ctrl()), EditorCommand::Redo),
        (EguiInput::with(Key::D, Modifiers::ctrl()), EditorCommand::Duplicate),
        (EguiInput::new(Key::Delete), EditorCommand::DeleteSelected),
        (EguiInput::new(Key::F), EditorCommand::SelectNearestToPlayer),
    ];
    assert(table@ =~= shortcut_table());
    table
}

/// The commands whose shortcuts were pressed this frame, in table order.
pub fn editor_input(input: &InputState) -> (commands: Vec<EditorCommand>)
    ensures
        commands@ == triggered(shortcut_table(), input.egui_inputs()),
{
    let table = shortcuts();
    let mut commands: Vec<EditorCommand> = Vec::new();
    let mut i: usize = 0;
    while i < table.len()
        invariant
            0 <= i <= table.len(),
            table@ == shortcut_table(),
            commands@ == triggered(table@.take(i as int), input.egui_inputs()),
        decreases table.len() - i,
    {
        let (key, command) = table[i];
        assert(table@.take(i + 1).drop_last() == table@.take(i as int));
        if input.egui_pressed(key) {
            commands.push(command);
        }
        i = i + 1;
    }
    assert(table@.take(table.len() as int) == table@);
    commands
}

} // verus!
