//! Undo/redo history of level snapshots.

use vstd::prelude::*;
use crate::commands::EditorCommand;
use crate::level::Level;
use crate::model::{clamped, EditorState};

verus! {

/// The most snapshots the history keeps; older ones are dropped first.
pub const HISTORY_LIMIT: usize = 100;

/// What is left of a stack after a new snapshot is pushed at `position`:
/// every snapshot after the cursor is discarded, the new one is appended,
/// and the oldest one is dropped when the limit is exceeded.
pub open spec fn pushed_stack<L>(stack: Seq<L>, position: int, snapshot: L) -> Seq<L> {
    let keep = if position + 1 <= stack.len() { position + 1 } else { stack.len() as int };
    let grown = stack.take(keep).push(snapshot);
    if grown.len() > HISTORY_LIMIT {
        grown.drop_first()
    } else {
        grown
    }
}

/// The message reported when a step has been applied.
pub open spec fn step_message(direction: int) -> &'static str {
    if direction < 0 {
        "undid level edit"
    } else {
        "redid level edit"
    }
}

/// Undo/redo history: a stack of snapshots and a cursor on the current one.
pub struct History<L> {
    stack: Vec<L>,
    position: usize,
}

impl<L> History<L> {
    /// The snapshots, oldest first.
    pub closed spec fn snapshots(&self) -> Seq<L> {
        self.stack@
    }

    /// Index of the snapshot that matches the current level.
    pub closed spec fn cursor(&self) -> int {
        self.position as int
    }

    /// The stack never exceeds the limit, and the cursor points into it
    /// (or is 0 while it is empty).
    pub open spec fn well_formed(&self) -> bool {
        &&& self.snapshots().len() <= HISTORY_LIMIT
        &&& if self.snapshots().len() == 0 {
            self.cursor() == 0
        } else {
            0 <= self.cursor() < self.snapshots().len()
        }
    }

    /// An empty history.
    pub fn new() -> (h: Self)
        ensures
            h.well_formed(),
            h.snapshots() == Seq::<L>::empty(),
            h.cursor() == 0,
    {
        History { stack: Vec::new(), position: 0 }
    }

    /// Number of snapshots held.
    pub fn len(&self) -> (n: usize)
        ensures
            n == self.snapshots().len(),
    {
        self.stack.len()
    }

    /// Index of the current snapshot.
    pub fn position(&self) -> (p: usize)
        ensures
            p == self.cursor(),
    {
        self.position
    }
}

impl<L> Default for History<L> {
    /// An empty history.
    fn default() -> (h: Self)
        ensures
            h.well_formed(),
            h.snapshots() == Seq::<L>::empty(),
            h.cursor() == 0,
    {
        History::new()
    }
}

impl<L: Clone> History<L> {
    /// Forgets everything and starts over from a copy of `level`.
    pub fn reset(&mut self, level: &L)
        ensures
            final(self).well_formed(),
            final(self).snapshots().len() == 1,
            cloned(*level, final(self).snapshots()[0]),
            final(self).cursor() == 0,
    {
        self.stack.clear();
        self.position = 0;
        self.push(level);
    }

    /// Step forward (redo) or backward (undo).
    pub fn step(&mut self, direction: isize, level: &mut L) -> (r: Result<&'static str, &'static str>)
        requires
            old(self).well_formed(),
            old(self).cursor() + direction <= isize::MAX,
        ensures
            final(self).well_formed(),
            old(self).cursor() + direction < 0 ==> {
                &&& r == Err::<&'static str, &'static str>("there is nothing to undo")
                &&& *final(self) == *old(self)
                &&& *final(level) == *old(level)
            },
            old(self).cursor() + direction >= old(self).snapshots().len() ==> {
                &&& r == Err::<&'static str, &'static str>("there is nothing to redo")
                &&& *final(self) == *old(self)
                &&& *final(level) == *old(level)
            },
            0 <= old(self).cursor() + direction < old(self).snapshots().len() ==> {
                &&& r == Ok::<&'static str, &'static str>(step_message(direction as int))
                &&& final(self).snapshots() == old(self).snapshots()
                &&& final(self).cursor() == old(self).cursor() + direction
                &&& cloned(old(self).snapshots()[final(self).cursor()], *final(level))
            },
    {
        let target_pos = self.position as isize + direction;

        if target_pos < 0 {
            return Err("there is nothing to undo");
        }
        if target_pos >= self.stack.len() as isize {
            return Err("there is nothing to redo");
        }

        self.position = target_pos as usize;
        *level = self.stack[self.position].clone();

        Ok(if direction < 0 {
            "undid level edit"
        } else {
            "redid level edit"
        })
    }

    /// Records a copy of `level` as the new current snapshot, dropping any
    /// snapshots that could have been redone.
    pub fn push(&mut self, level: &L)
        requires
            old(self).well_formed(),
        ensures
            final(self).well_formed(),
            cloned(*level, final(self).snapshots().last()),
            final(self).snapshots() == pushed_stack(
                old(self).snapshots(),
                old(self).cursor(),
                final(self).snapshots().last(),
            ),
            final(self).cursor() == final(self).snapshots().len() - 1,
    {
        self.stack.truncate(self.position + 1);
        let snapshot = level.clone();
        self.stack.push(snapshot);

        if self.stack.len() > HISTORY_LIMIT {
            self.stack.remove(0);
        }

        self.position = self.stack.len() - 1;
    }
}


/// `post` is `pre` after finishing a pending edit of `level`: when a refresh
/// is pending, the selection is clamped, a copy of the level is pushed onto
/// the history and the refresh is marked done (`refreshed`); otherwise
/// nothing changes.
pub open spec fn finished_pending_edit<O: Clone, D: Clone>(
    pre: EditorState<O, D>,
    level: Level<O, D>,
    post: EditorState<O, D>,
    refreshed: bool,
) -> bool {
    if pre.refresh_pending {
        &&& refreshed
        &&& post.selected_object == clamped(pre.selected_object, level.objects.len() as int)
        &&& post.status == pre.status
        &&& post.dirty == pre.dirty
        &&& !post.refresh_pending
        &&& post.focus_test_timer == pre.focus_test_timer
        &&& post.history.well_formed()
        &&& cloned(level, post.history.snapshots().last())
        &&& post.history.snapshots() == pushed_stack(
            pre.history.snapshots(),
            pre.history.cursor(),
            post.history.snapshots().last(),
        )
        &&& post.history.cursor() == post.history.snapshots().len() - 1
    } else {
        !refreshed && post == pre
    }
}

/// `post` and `post_level` are `pre` and `level` after stepping the history
/// by `direction`. When the target is in the stack, the level becomes a copy
/// of the target snapshot, the selection is clamped to it, the level is
/// marked dirty with the step's message and a refresh is sent (`refreshed`).
/// Otherwise only the status changes, to the reason.
pub open spec fn stepped_history<O: Clone, D: Clone>(
    pre: EditorState<O, D>,
    level: Level<O, D>,
    direction: int,
    post: EditorState<O, D>,
    post_level: Level<O, D>,
    refreshed: bool,
) -> bool {
    let target = pre.history.cursor() + direction;
    &&& post.focus_test_timer == pre.focus_test_timer
    &&& if 0 <= target < pre.history.snapshots().len() {
        &&& refreshed
        &&& post.history.well_formed()
        &&& post.history.snapshots() == pre.history.snapshots()
        &&& post.history.cursor() == target
        &&& cloned(pre.history.snapshots()[target], post_level)
        &&& post.selected_object == clamped(pre.selected_object, post_level.objects.len() as int)
        &&& post.dirty
        &&& post.status@ == step_message(direction)@
        &&& !post.refresh_pending
    } else {
        &&& !refreshed
        &&& post_level == level
        &&& post.history == pre.history
        &&& post.selected_object == pre.selected_object
        &&& post.dirty == pre.dirty
        &&& post.refresh_pending == pre.refresh_pending
        &&& post.status@ == (if target < 0 {
            "there is nothing to undo"@
        } else {
            "there is nothing to redo"@
        })
    }
}

/// The history step that a command asks for, if any.
pub open spec fn history_direction(command: EditorCommand) -> Option<int> {
    match command {
        EditorCommand::Undo => Some(-1),
        EditorCommand::Redo => Some(1),
        _ => None,
    }
}

/// An undo or redo: a pending edit is finished first, then the history is
/// stepped by `direction`; `events` counts the refreshes of both parts.
pub open spec fn undo_redo_step<O: Clone, D: Clone>(
    pre: EditorState<O, D>,
    level: Level<O, D>,
    direction: int,
    post: EditorState<O, D>,
    post_level: Level<O, D>,
    events: int,
) -> bool {
    exists|mid: EditorState<O, D>, first: bool, second: bool|
        #![trigger finished_pending_edit(pre, level, mid, first), stepped_history(mid, level, direction, post, post_level, second)]
        {
            &&& finished_pending_edit(pre, level, mid, first)
            &&& stepped_history(mid, level, direction, post, post_level, second)
            &&& events == (if first { 1int } else { 0 }) + (if second { 1int } else { 0 })
        }
}

/// `post`/`post_level` follow from `pre`/`level` by one history command,
/// which sent `events` refresh events. A pending edit is finished first for
/// every undo, redo or explicit finish; other commands change nothing.
pub open spec fn history_command_step<O: Clone, D: Clone>(
    pre: EditorState<O, D>,
    level: Level<O, D>,
    command: EditorCommand,
    post: EditorState<O, D>,
    post_level: Level<O, D>,
    events: int,
) -> bool {
    if command == EditorCommand::FinishPendingEdit {
        &&& post_level == level
        &&& finished_pending_edit(pre, level, post, events == 1)
    } else if history_direction(command) is Some {
        undo_redo_step(pre, level, history_direction(command)->0, post, post_level, events)
    } else {
        &&& post == pre
        &&& post_level == level
        &&& events == 0
    }
}

/// `editors`/`levels` are the states before and after each of `commands`,
/// and `events` the refresh events each one sent.
pub open spec fn history_trace<O: Clone, D: Clone>(
    editors: Seq<EditorState<O, D>>,
    levels: Seq<Level<O, D>>,
    commands: Seq<EditorCommand>,
    events: Seq<int>,
) -> bool {
    &&& editors.len() == commands.len() + 1
    &&& levels.len() == commands.len() + 1
    &&& events.len() == commands.len()
    &&& forall|i: int|
        0 <= i < commands.len() ==> #[trigger] history_command_step(
            editors[i],
            levels[i],
            commands[i],
            editors[i + 1],
            levels[i + 1],
            events[i],
        )
}

/// Total of a sequence of counts.
pub open spec fn total(counts: Seq<int>) -> int
    decreases counts.len(),
{
    if counts.len() == 0 {
        0
    } else {
        total(counts.drop_last()) + counts.last()
    }
}

/// Records the pending edit, if any. Returns whether a refresh event is due.
fn finish_pending_edit<O: Clone, D: Clone>(editor: &mut EditorState<O, D>, level: &Level<O, D>) -> (refreshed: bool)
    requires
        old(editor).well_formed(),
    ensures
        final(editor).well_formed(),
        finished_pending_edit(*old(editor), *level, *final(editor), refreshed),
{
    if editor.refresh_pending {
        editor.clamp_selection(level);
        editor.history.push(level);
        editor.refresh_pending = false;
        true
    } else {
        false
    }
}

/// Applies one history command to the editor and the level; returns the
/// number of refresh events it sends.
pub fn handle_history_command<O: Clone, D: Clone>(
    editor: &mut EditorState<O, D>,
    level: &mut Level<O, D>,
    command: EditorCommand,
) -> (events: usize)
    requires
        old(editor).well_formed(),
    ensures
        final(editor).well_formed(),
        events <= 2,
        history_command_step(*old(editor), *old(level), command, *final(editor), *final(level), events as int),
{
    let direction: isize = match command {
        EditorCommand::FinishPendingEdit => {
            let refreshed = finish_pending_edit(editor, level);
            return if refreshed { 1 } else { 0 };
        },
        EditorCommand::Undo => -1,
        EditorCommand::Redo => 1,
        _ => {
            return 0;
        },
    };

    let ghost pre_level = *level;
    let first = finish_pending_edit(editor, level);
    let ghost mid = *editor;

    let second = match editor.history.step(direction, level) {
        Ok(status) => {
            editor.clamp_selection(level);
            editor.dirty = true;
            editor.status = status.to_string();
            editor.refresh_pending = false;
            true
        },
        Err(err) => {
            editor.status = err.to_string();
            false
        },
    };
    assert(finished_pending_edit(*old(editor), pre_level, mid, first));
    assert(stepped_history(mid, pre_level, direction as int, *editor, *level, second));
    let events: usize = (if first { 1 } else { 0 }) + (if second { 1 } else { 0 });
    assert(history_direction(command) == Some(direction as int));
    assert(undo_redo_step(*old(editor), pre_level, direction as int, *editor, *level, events as int));
    assert(history_command_step(*old(editor), pre_level, command, *editor, *level, events as int));
    events
}

/// Applies the history commands in order; returns the number of refresh
/// events to send.
pub fn handle_history<O: Clone, D: Clone>(
    editor: &mut EditorState<O, D>,
    level: &mut Level<O, D>,
    commands: &Vec<EditorCommand>,
) -> (events: usize)
    requires
        old(editor).well_formed(),
        commands.len() <= usize::MAX / 2,
    ensures
        final(editor).well_formed(),
        exists|editors: Seq<EditorState<O, D>>, levels: Seq<Level<O, D>>, counts: Seq<int>|
            #[trigger] history_trace(editors, levels, commands@, counts)
            && editors[0] == *old(editor)
            && levels[0] == *old(level)
            && editors.last() == *final(editor)
            && levels.last() == *final(level)
            && events == total(counts),
{
    let ghost mut editors = seq![*editor];
    let ghost mut levels = seq![*level];
    let ghost mut counts: Seq<int> = seq![];
    let mut events: usize = 0;
    let mut i: usize = 0;
    while i < commands.len()
        invariant
            0 <= i <= commands.len(),
            commands.len() <= usize::MAX / 2,
            editor.well_formed(),
            events <= 2 * i,
            history_trace(editors, levels, commands@.take(i as int), counts),
            editors[0] == *old(editor),
            levels[0] == *old(level),
            editors.last() == *editor,
            levels.last() == *level,
            events == total(counts),
        decreases commands.len() - i,
    {
        let n = handle_history_command(editor, level, commands[i]);
        proof {
            let prev_counts = counts;
            editors = editors.push(*editor);
            levels = levels.push(*level);
            counts = counts.push(n as int);
            assert(counts.drop_last() == prev_counts);
            assert forall|k: int| 0 <= k < (i + 1) as int implies #[trigger] history_command_step(
                editors[k],
                levels[k],
                commands@.take((i + 1) as int)[k],
                editors[k + 1],
                levels[k + 1],
                counts[k],
            ) by {
                if k < i {
                    assert(commands@.take(i as int)[k] == commands@.take((i + 1) as int)[k]);
                }
            }
        }
        events = events + n;
        i = i + 1;
    }
    assert(commands@.take(commands.len() as int) == commands@);
    events
}

} // verus!
