//! Properties that span several editor operations.

use vstd::prelude::*;
use crate::commands::EditorCommand;
use crate::editor_input::{shortcut_table, triggered};
use crate::history::{finished_pending_edit, history_command_step, pushed_stack, stepped_history, History, HISTORY_LIMIT};
use crate::input::{egui_presses, normalized, EguiInput, EguiKeyEvent, Modifiers};
use crate::level::Level;
use crate::model::{clamped, EditorState};
use crate::objects::{added, deleted, duplicated};

verus! {

/// After a push the new snapshot is the last one and the current one, so
/// nothing is left to redo, and the stack stays within the limit.
pub proof fn law_push_makes_snapshot_current<L>(history: History<L>, snapshot: L)
    requires
        history.well_formed(),
    ensures
        ({
            let stack = pushed_stack(history.snapshots(), history.cursor(), snapshot);
            &&& 1 <= stack.len() <= HISTORY_LIMIT
            &&& stack.last() == snapshot
        }),
{
}

/// After a push onto a non-empty history, the snapshot just before the new
/// one is the snapshot that was current before the push: one undo goes back
/// to it.
pub proof fn law_undo_after_push_restores<L>(history: History<L>, snapshot: L)
    requires
        history.well_formed(),
        history.snapshots().len() > 0,
    ensures
        ({
            let stack = pushed_stack(history.snapshots(), history.cursor(), snapshot);
            &&& stack.len() >= 2
            &&& stack[stack.len() - 2] == history.snapshots()[history.cursor()]
        }),
{
    let old_stack = history.snapshots();
    let kept = old_stack.take(history.cursor() + 1);
    let grown = kept.push(snapshot);
    assert(grown[grown.len() - 2] == old_stack[history.cursor()]);
    if grown.len() > HISTORY_LIMIT {
        assert(grown.drop_first()[grown.len() - 3] == grown[grown.len() - 2]);
    }
}

/// A push keeps every snapshot up to the current one, in order; when the
/// limit is exceeded the oldest one is the one dropped.
pub proof fn law_push_keeps_earlier_snapshots<L>(history: History<L>, snapshot: L)
    requires
        history.well_formed(),
        history.snapshots().len() > 0,
    ensures
        ({
            let stack = pushed_stack(history.snapshots(), history.cursor(), snapshot);
            let dropped: int = if history.cursor() + 2 > HISTORY_LIMIT { 1 } else { 0 };
            &&& stack.len() == history.cursor() + 2 - dropped
            &&& forall|i: int| dropped <= i <= history.cursor() ==> #[trigger] history.snapshots()[i] == stack[i - dropped]
        }),
{
}

/// The pending edit is finished at most once: finishing again changes nothing
/// and sends no refresh.
pub proof fn law_finish_pending_edit_is_idempotent<O: Clone, D: Clone>(
    pre: EditorState<O, D>,
    level: Level<O, D>,
    mid: EditorState<O, D>,
    first: bool,
    post: EditorState<O, D>,
    second: bool,
)
    requires
        finished_pending_edit(pre, level, mid, first),
        finished_pending_edit(mid, level, post, second),
    ensures
        !second,
        post == mid,
{
}

/// Recording an edit and then undoing it brings back a copy of the level as
/// it was before the edit, that is the snapshot that was current then; each
/// of the two commands sends one refresh.
pub proof fn law_undo_reverts_recorded_edit<O: Clone, D: Clone>(
    pre: EditorState<O, D>,
    level: Level<O, D>,
    mid: EditorState<O, D>,
    mid_level: Level<O, D>,
    first_events: int,
    post: EditorState<O, D>,
    post_level: Level<O, D>,
    second_events: int,
)
    requires
        pre.well_formed(),
        pre.refresh_pending,
        pre.history.snapshots().len() > 0,
        history_command_step(pre, level, EditorCommand::FinishPendingEdit, mid, mid_level, first_events),
        history_command_step(mid, mid_level, EditorCommand::Undo, post, post_level, second_events),
    ensures
        first_events == 1,
        second_events == 1,
        cloned(pre.history.snapshots()[pre.history.cursor()], post_level),
        post.dirty,
        !post.refresh_pending,
{
    law_undo_after_push_restores(pre.history, mid.history.snapshots().last());
    let (inner, a, b) = choose|inner: EditorState<O, D>, a: bool, b: bool|
        #![trigger finished_pending_edit(mid, mid_level, inner, a), stepped_history(inner, mid_level, -1, post, post_level, b)]
        finished_pending_edit(mid, mid_level, inner, a)
        && stepped_history(inner, mid_level, -1, post, post_level, b)
        && second_events == (if a { 1int } else { 0 }) + (if b { 1int } else { 0 });
    law_finish_pending_edit_is_idempotent(pre, level, mid, true, inner, a);
}

/// With no edit pending, an undo followed by a redo returns to the snapshot
/// that was current before, and the level is a copy of it again.
pub proof fn law_redo_after_undo_returns<O: Clone, D: Clone>(
    pre: EditorState<O, D>,
    level: Level<O, D>,
    mid: EditorState<O, D>,
    mid_level: Level<O, D>,
    first_events: int,
    post: EditorState<O, D>,
    post_level: Level<O, D>,
    second_events: int,
)
    requires
        pre.well_formed(),
        !pre.refresh_pending,
        pre.history.cursor() >= 1,
        history_command_step(pre, level, EditorCommand::Undo, mid, mid_level, first_events),
        history_command_step(mid, mid_level, EditorCommand::Redo, post, post_level, second_events),
    ensures
        post.history.snapshots() == pre.history.snapshots(),
        post.history.cursor() == pre.history.cursor(),
        cloned(pre.history.snapshots()[pre.history.cursor()], post_level),
        first_events == 1,
        second_events == 1,
{
    let (m1, a1, b1) = choose|m1: EditorState<O, D>, a1: bool, b1: bool|
        #![trigger finished_pending_edit(pre, level, m1, a1), stepped_history(m1, level, -1, mid, mid_level, b1)]
        finished_pending_edit(pre, level, m1, a1)
        && stepped_history(m1, level, -1, mid, mid_level, b1)
        && first_events == (if a1 { 1int } else { 0 }) + (if b1 { 1int } else { 0 });
    let (m2, a2, b2) = choose|m2: EditorState<O, D>, a2: bool, b2: bool|
        #![trigger finished_pending_edit(mid, mid_level, m2, a2), stepped_history(m2, mid_level, 1, post, post_level, b2)]
        finished_pending_edit(mid, mid_level, m2, a2)
        && stepped_history(m2, mid_level, 1, post, post_level, b2)
        && second_events == (if a2 { 1int } else { 0 }) + (if b2 { 1int } else { 0 });
}

/// A clamped selection points inside the list, and clamping twice is the
/// same as clamping once.
pub proof fn law_clamped_selection_is_in_range(selected: Option<usize>, count: int)
    ensures
        clamped(selected, count) matches Some(index) ==> index < count,
        clamped(clamped(selected, count), count) == clamped(selected, count),
{
}

/// After a delete nothing is selected, and the level loses one object exactly
/// when the selection pointed at one.
pub proof fn law_delete_clears_selection<O, D>(
    pre: EditorState<O, D>,
    level: Level<O, D>,
    post: EditorState<O, D>,
    post_level: Level<O, D>,
)
    requires
        deleted(pre, level, post, post_level),
    ensures
        post.selected_object is None,
        post_level.objects.len() == level.objects.len() - (if pre.selected_object matches Some(index) && index < level.objects.len() { 1int } else { 0 }),
{
}

/// A successful duplicate selects the copy, which is the new last object.
pub proof fn law_duplicate_selects_copy<O, D, F: Fn(&O) -> O>(
    pre: EditorState<O, D>,
    level: Level<O, D>,
    shifted: F,
    post: EditorState<O, D>,
    post_level: Level<O, D>,
)
    requires
        duplicated(pre, level, shifted, post, post_level),
        pre.selected_object matches Some(index) && index < level.objects.len(),
    ensures
        post_level.objects.len() == level.objects.len() + 1,
        post.selected_object == Some((post_level.objects.len() - 1) as usize),
{
}

/// A command is among those triggered by `table` exactly when some entry
/// for it has its input pressed.
pub proof fn lemma_triggered_contains(table: Seq<(EguiInput, EditorCommand)>, pressed: Set<EguiInput>, command: EditorCommand)
    ensures
        triggered(table, pressed).contains(command) <==> exists|i: int|
            0 <= i < table.len() && #[trigger] table[i].1 == command && pressed.contains(table[i].0),
    decreases table.len(),
{
    if table.len() > 0 {
        let rest = table.drop_last();
        lemma_triggered_contains(rest, pressed, command);
        let earlier = triggered(rest, pressed);
        if triggered(table, pressed).contains(command) {
            let k = choose|k: int| 0 <= k < triggered(table, pressed).len() && triggered(table, pressed)[k] == command;
            if k < earlier.len() {
                assert(earlier[k] == command);
                let i = choose|i: int| 0 <= i < rest.len() && #[trigger] rest[i].1 == command && pressed.contains(rest[i].0);
                assert(table[i] == rest[i]);
            } else {
                assert(table[table.len() - 1].1 == command);
            }
        }
        if exists|i: int| 0 <= i < table.len() && #[trigger] table[i].1 == command && pressed.contains(table[i].0) {
            let i = choose|i: int| 0 <= i < table.len() && #[trigger] table[i].1 == command && pressed.contains(table[i].0);
            if i < table.len() - 1 {
                assert(rest[i] == table[i]);
                let k = choose|k: int| 0 <= k < earlier.len() && earlier[k] == command;
                if pressed.contains(table.last().0) {
                    assert(triggered(table, pressed)[k] == command);
                }
            } else {
                assert(triggered(table, pressed).last() == command);
            }
        }
    }
}

/// Each shortcut's command is emitted exactly when its input was pressed.
pub proof fn law_shortcut_fires_iff_pressed(pressed: Set<EguiInput>, i: int)
    requires
        0 <= i < shortcut_table().len(),
    ensures
        triggered(shortcut_table(), pressed).contains(shortcut_table()[i].1) == pressed.contains(shortcut_table()[i].0),
{
    let table = shortcut_table();
    lemma_triggered_contains(table, pressed, table[i].1);
    assert forall|j: int| 0 <= j < table.len() && #[trigger] table[j].1 == table[i].1 implies j == i by {}
}

/// Nothing pressed, no command.
pub proof fn law_no_shortcut_without_input()
    ensures
        triggered(shortcut_table(), Set::<EguiInput>::empty()) == Seq::<EditorCommand>::empty(),
{
    reveal_with_fuel(triggered, 7);
}


/// An undo or a redo first records a pending edit: afterwards the newest
/// snapshot in the history is a copy of the level as it was before the
/// command, and one refresh was sent for it.
pub proof fn law_undo_redo_records_pending_edit<O: Clone, D: Clone>(
    pre: EditorState<O, D>,
    level: Level<O, D>,
    command: EditorCommand,
    post: EditorState<O, D>,
    post_level: Level<O, D>,
    events: int,
)
    requires
        pre.well_formed(),
        pre.refresh_pending,
        command == EditorCommand::Undo || command == EditorCommand::Redo,
        history_command_step(pre, level, command, post, post_level, events),
    ensures
        post.history.snapshots().len() >= 1,
        cloned(level, post.history.snapshots().last()),
        !post.refresh_pending,
        events >= 1,
{
    let direction: int = if command == EditorCommand::Undo { -1 } else { 1 };
    let (mid, a, b) = choose|mid: EditorState<O, D>, a: bool, b: bool|
        #![trigger finished_pending_edit(pre, level, mid, a), stepped_history(mid, level, direction, post, post_level, b)]
        finished_pending_edit(pre, level, mid, a)
        && stepped_history(mid, level, direction, post, post_level, b)
        && events == (if a { 1int } else { 0 }) + (if b { 1int } else { 0 });
}

/// A redo while an edit is pending never changes the level: recording the
/// edit drops the redo branch, so there is nothing to redo, and the history
/// ends with a copy of the edited level as its current snapshot.
pub proof fn law_redo_with_pending_edit_keeps_level<O: Clone, D: Clone>(
    pre: EditorState<O, D>,
    level: Level<O, D>,
    post: EditorState<O, D>,
    post_level: Level<O, D>,
    events: int,
)
    requires
        pre.well_formed(),
        pre.refresh_pending,
        history_command_step(pre, level, EditorCommand::Redo, post, post_level, events),
    ensures
        post_level == level,
        post.status@ == "there is nothing to redo"@,
        events == 1,
        post.history.cursor() == post.history.snapshots().len() - 1,
        cloned(level, post.history.snapshots()[post.history.cursor()]),
{
    let (mid, a, b) = choose|mid: EditorState<O, D>, a: bool, b: bool|
        #![trigger finished_pending_edit(pre, level, mid, a), stepped_history(mid, level, 1, post, post_level, b)]
        finished_pending_edit(pre, level, mid, a)
        && stepped_history(mid, level, 1, post, post_level, b)
        && events == (if a { 1int } else { 0 }) + (if b { 1int } else { 0 });
}

/// An undo or a redo keeps a selection that still points at an object both
/// of the level before the command and of the level after it.
pub proof fn law_undo_redo_keeps_valid_selection<O: Clone, D: Clone>(
    pre: EditorState<O, D>,
    level: Level<O, D>,
    command: EditorCommand,
    post: EditorState<O, D>,
    post_level: Level<O, D>,
    events: int,
    index: usize,
)
    requires
        pre.well_formed(),
        command == EditorCommand::Undo || command == EditorCommand::Redo,
        history_command_step(pre, level, command, post, post_level, events),
        pre.selected_object == Some(index),
        index < level.objects.len(),
        index < post_level.objects.len(),
    ensures
        post.selected_object == Some(index),
{
    let direction: int = if command == EditorCommand::Undo { -1 } else { 1 };
    let (mid, a, b) = choose|mid: EditorState<O, D>, a: bool, b: bool|
        #![trigger finished_pending_edit(pre, level, mid, a), stepped_history(mid, level, direction, post, post_level, b)]
        finished_pending_edit(pre, level, mid, a)
        && stepped_history(mid, level, direction, post, post_level, b)
        && events == (if a { 1int } else { 0 }) + (if b { 1int } else { 0 });
}

/// Adding an object keeps every existing object in place and appends the new
/// one after them, whatever was selected; the new object becomes selected.
pub proof fn law_add_appends_and_keeps_objects<O, D>(
    pre: EditorState<O, D>,
    level: Level<O, D>,
    object: O,
    post: EditorState<O, D>,
    post_level: Level<O, D>,
)
    requires
        added(pre, level, object, post, post_level),
    ensures
        post_level.objects.len() == level.objects.len() + 1,
        forall|j: int| 0 <= j < level.objects.len() ==> #[trigger] post_level.objects@[j] == level.objects@[j],
        post_level.objects@[level.objects.len() as int] == object,
        post.selected_object == Some(level.objects.len() as usize),
        post_level.data == level.data,
{
}

/// Deleting the selected object takes out exactly that object: the objects
/// before it stay where they were and the ones after it move up by one, in
/// their order.
pub proof fn law_delete_keeps_order<O, D>(
    pre: EditorState<O, D>,
    level: Level<O, D>,
    post: EditorState<O, D>,
    post_level: Level<O, D>,
    index: usize,
)
    requires
        deleted(pre, level, post, post_level),
        pre.selected_object == Some(index),
        index < level.objects.len(),
    ensures
        post_level.objects.len() == level.objects.len() - 1,
        forall|j: int| 0 <= j < index ==> #[trigger] post_level.objects@[j] == level.objects@[j],
        forall|j: int| index <= j < post_level.objects.len() ==> #[trigger] post_level.objects@[j] == level.objects@[j + 1],
{
}

/// Normalizing keeps every modifier that was held except `command`, which
/// it clears.
pub proof fn law_normalizing_only_clears_command(modifiers: Modifiers)
    ensures
        normalized(modifiers).alt == modifiers.alt,
        normalized(modifiers).ctrl == modifiers.ctrl,
        normalized(modifiers).shift == modifiers.shift,
        normalized(modifiers).mac_cmd == modifiers.mac_cmd,
        !normalized(modifiers).command,
{
}

/// Every recorded egui press keeps the shift, alt, ctrl and mac_cmd state of
/// a press event for its key.
pub proof fn law_recorded_press_keeps_modifiers(events: Seq<EguiKeyEvent>, input: EguiInput)
    requires
        egui_presses(events).contains(input),
    ensures
        exists|i: int| 0 <= i < events.len() && #[trigger] events[i].pressed
            && events[i].key == input.key
            && events[i].modifiers.alt == input.modifiers.alt
            && events[i].modifiers.ctrl == input.modifiers.ctrl
            && events[i].modifiers.shift == input.modifiers.shift
            && events[i].modifiers.mac_cmd == input.modifiers.mac_cmd,
{
}

/// No shortcut is held with shift, so presses that all hold shift trigger no
/// command.
pub proof fn law_shift_presses_trigger_no_shortcut(events: Seq<EguiKeyEvent>)
    requires
        forall|i: int| 0 <= i < events.len() ==> (#[trigger] events[i]).modifiers.shift,
    ensures
        triggered(shortcut_table(), egui_presses(events)) == Seq::<EditorCommand>::empty(),
{
    let pressed = egui_presses(events);
    let table = shortcut_table();
    assert forall|k: int| 0 <= k < table.len() implies !pressed.contains(#[trigger] table[k].0) by {
        if pressed.contains(table[k].0) {
            law_recorded_press_keeps_modifiers(events, table[k].0);
            let i = choose|i: int| 0 <= i < events.len() && #[trigger] events[i].pressed
                && events[i].key == table[k].0.key
                && events[i].modifiers.shift == table[k].0.modifiers.shift;
            assert(events[i].modifiers.shift);
        }
    }
    reveal_with_fuel(triggered, 7);
    assert(table.drop_last() =~= table.take(5));
    assert(table.take(5).drop_last() =~= table.take(4));
    assert(table.take(4).drop_last() =~= table.take(3));
    assert(table.take(3).drop_last() =~= table.take(2));
    assert(table.take(2).drop_last() =~= table.take(1));
    assert(table.take(1).drop_last() =~= table.take(0));
    assert(!pressed.contains(table[0].0));
    assert(!pressed.contains(table[1].0));
    assert(!pressed.contains(table[2].0));
    assert(!pressed.contains(table[3].0));
    assert(!pressed.contains(table[4].0));
    assert(!pressed.contains(table[5].0));
}

} // verus!
