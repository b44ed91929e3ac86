//! Editing the level's objects: duplicate, delete, add, select nearest.

use vstd::prelude::*;
use crate::commands::EditorCommand;
use crate::level::Level;
use crate::model::EditorState;

verus! {

/// The fields that no object command touches are as in `pre`.
pub open spec fn keeps_history<O, D>(pre: EditorState<O, D>, post: EditorState<O, D>) -> bool {
    &&& post.history == pre.history
    &&& post.focus_test_timer == pre.focus_test_timer
}

/// `post` is `pre` after `mark_changed`, with `selected` as its selection.
pub open spec fn marked_changed<O, D>(pre: EditorState<O, D>, post: EditorState<O, D>, selected: Option<usize>) -> bool {
    &&& keeps_history(pre, post)
    &&& post.selected_object == selected
    &&& post.dirty
    &&& post.refresh_pending
    &&& post.status@ == "edited level data"@
}

/// `post` is `pre` with only the selection set to `selected` and the status to `status`.
pub open spec fn only_reported<O, D>(
    pre: EditorState<O, D>,
    post: EditorState<O, D>,
    selected: Option<usize>,
    status: Seq<char>,
) -> bool {
    &&& keeps_history(pre, post)
    &&& post.selected_object == selected
    &&& post.dirty == pre.dirty
    &&& post.refresh_pending == pre.refresh_pending
    &&& post.status@ == status
}

/// The outcome of duplicating the selected object: with nothing selected, or
/// a selection past the end, only the status says so (and the stale selection
/// is dropped); otherwise the shifted copy that `shifted` makes of the
/// selected object is appended and selected, and the level is marked changed.
pub open spec fn duplicated<O, D, F: Fn(&O) -> O>(
    pre: EditorState<O, D>,
    level: Level<O, D>,
    shifted: F,
    post: EditorState<O, D>,
    post_level: Level<O, D>,
) -> bool {
    match pre.selected_object {
        None => {
            &&& post_level == level
            &&& only_reported(pre, post, None, "no object selected to duplicate"@)
        },
        Some(index) => if index >= level.objects.len() {
            &&& post_level == level
            &&& only_reported(pre, post, None, "selected object no longer exists"@)
        } else {
            &&& post_level.data == level.data
            &&& post_level.objects@ == level.objects@.push(post_level.objects@.last())
            &&& call_ensures(shifted, (&level.objects@[index as int],), post_level.objects@.last())
            &&& marked_changed(pre, post, Some(level.objects.len() as usize))
        },
    }
}

/// The outcome of deleting the selected object: a selection inside the list
/// removes that object and marks the level changed; in every case nothing is
/// selected afterwards.
pub open spec fn deleted<O, D>(
    pre: EditorState<O, D>,
    level: Level<O, D>,
    post: EditorState<O, D>,
    post_level: Level<O, D>,
) -> bool {
    match pre.selected_object {
        Some(index) => if index < level.objects.len() {
            &&& post_level.data == level.data
            &&& post_level.objects@ == level.objects@.remove(index as int)
            &&& marked_changed(pre, post, None)
        } else {
            &&& post_level == level
            &&& post == (EditorState { selected_object: None, ..pre })
        },
        None => {
            &&& post_level == level
            &&& post == pre
        },
    }
}

/// The outcome of adding `object`: it is appended and selected, and the
/// level is marked changed.
pub open spec fn added<O, D>(
    pre: EditorState<O, D>,
    level: Level<O, D>,
    object: O,
    post: EditorState<O, D>,
    post_level: Level<O, D>,
) -> bool {
    &&& post_level.data == level.data
    &&& post_level.objects@ == level.objects@.push(object)
    &&& marked_changed(pre, post, Some(level.objects.len() as usize))
}

/// `index` is the first position of a smallest key.
pub open spec fn is_first_minimum(keys: Seq<i32>, index: int) -> bool {
    &&& 0 <= index < keys.len()
    &&& forall|j: int| 0 <= j < keys.len() ==> keys[index] <= #[trigger] keys[j]
    &&& forall|j: int| 0 <= j < index ==> keys[index] < #[trigger] keys[j]
}

/// `selected` is the first object with the smallest key, or nothing when
/// there are no keys.
pub open spec fn nearest(keys: Seq<i32>, selected: Option<usize>) -> bool {
    match selected {
        None => keys.len() == 0,
        Some(index) => is_first_minimum(keys, index as int),
    }
}

/// `keys` are what `distance_key` gave for each object and `position`.
pub open spec fn keys_of<O, D, P, K: Fn(&O, &P) -> i32>(
    level: Level<O, D>,
    position: P,
    distance_key: K,
    keys: Seq<i32>,
) -> bool {
    &&& keys.len() == level.objects.len()
    &&& forall|i: int| 0 <= i < keys.len() ==> call_ensures(distance_key, (&level.objects@[i], &position), #[trigger] keys[i])
}

/// The outcome of selecting the object nearest to `position`: the selection
/// becomes the first object whose key is smallest, and nothing else changes.
pub open spec fn selected_nearest<O, D, P, K: Fn(&O, &P) -> i32>(
    pre: EditorState<O, D>,
    level: Level<O, D>,
    position: P,
    distance_key: K,
    post: EditorState<O, D>,
) -> bool {
    &&& post == (EditorState { selected_object: post.selected_object, ..pre })
    &&& exists|keys: Seq<i32>| #[trigger] keys_of(level, position, distance_key, keys) && nearest(keys, post.selected_object)
}

/// Appends a copy of the selected object, moved by `shifted`, and selects it.
pub fn duplicate_selected<O: Clone, D: Clone, F: Fn(&O) -> O>(
    editor: &mut EditorState<O, D>,
    level: &mut Level<O, D>,
    shifted: &F,
)
    requires
        forall|object: &O| shifted.requires((object,)),
    ensures
        duplicated(*old(editor), *old(level), *shifted, *final(editor), *final(level)),
{
    let index = match editor.selected_object {
        None => {
            editor.status = "no object selected to duplicate".to_string();
            return;
        },
        Some(index) => index,
    };

    if index >= level.objects.len() {
        editor.status = "selected object no longer exists".to_string();
        editor.selected_object = None;
        return;
    }

    let object = shifted(&level.objects[index]);
    editor.selected_object = Some(level.objects.len());
    level.objects.push(object);
    editor.mark_changed();
}

/// Selects the object whose key for `position` is smallest (the first such),
/// or nothing when the level has no objects.
pub fn select_nearest<O, D, P, K: Fn(&O, &P) -> i32>(
    editor: &mut EditorState<O, D>,
    level: &Level<O, D>,
    position: &P,
    distance_key: &K,
)
    requires
        forall|object: &O, at: &P| distance_key.requires((object, at)),
    ensures
        selected_nearest(*old(editor), *level, *position, *distance_key, *final(editor)),
{
    let ghost mut keys: Seq<i32> = seq![];
    let mut best: Option<(usize, i32)> = None;
    let mut i: usize = 0;
    while i < level.objects.len()
        invariant
            0 <= i <= level.objects.len(),
            forall|object: &O, at: &P| distance_key.requires((object, at)),
            keys.len() == i,
            forall|j: int| 0 <= j < i ==> call_ensures(*distance_key, (&level.objects@[j], position), #[trigger] keys[j]),
            match best {
                None => i == 0,
                Some((index, key)) => index < i && keys[index as int] == key && is_first_minimum(keys, index as int),
            },
        decreases level.objects.len() - i,
    {
        let key = distance_key(&level.objects[i], position);
        proof {
            keys = keys.push(key);
        }
        best = match best {
            None => Some((i, key)),
            Some((index, best_key)) => if key < best_key { Some((i, key)) } else { Some((index, best_key)) },
        };
        i = i + 1;
    }
    editor.selected_object = match best {
        None => None,
        Some((index, _)) => Some(index),
    };
    assert(keys_of(*level, *position, *distance_key, keys));
}

/// Appends `object` to the level and selects it.
pub fn add_object_at<O: Clone, D: Clone>(editor: &mut EditorState<O, D>, level: &mut Level<O, D>, object: O)
    ensures
        added(*old(editor), *old(level), object, *final(editor), *final(level)),
{
    editor.selected_object = Some(level.objects.len());
    level.objects.push(object);
    editor.mark_changed();
}

/// Removes the selected object, if it exists, and clears the selection.
pub fn delete_selected<O: Clone, D: Clone>(editor: &mut EditorState<O, D>, level: &mut Level<O, D>)
    ensures
        deleted(*old(editor), *old(level), *final(editor), *final(level)),
{
    let index = match editor.selected_object {
        None => {
            return;
        },
        Some(index) => index,
    };

    if index < level.objects.len() {
        level.objects.remove(index);
        editor.mark_changed();
    }

    editor.selected_object = None;
}


/// The outcome of one object command. Adding and selecting need the player's
/// position; without a player only the status says so.
pub open spec fn object_command_step<O, D, P, S: Fn(&O) -> O, K: Fn(&O, &P) -> i32, M: Fn(&P) -> O>(
    pre: EditorState<O, D>,
    level: Level<O, D>,
    command: EditorCommand,
    player: Option<P>,
    shifted: S,
    distance_key: K,
    make_object: M,
    post: EditorState<O, D>,
    post_level: Level<O, D>,
) -> bool {
    match command {
        EditorCommand::Duplicate => duplicated(pre, level, shifted, post, post_level),
        EditorCommand::DeleteSelected => deleted(pre, level, post, post_level),
        EditorCommand::AddObjectAtPlayer => match player {
            Some(position) => {
                &&& call_ensures(make_object, (&position,), post_level.objects@.last())
                &&& added(pre, level, post_level.objects@.last(), post, post_level)
            },
            None => {
                &&& post_level == level
                &&& only_reported(pre, post, pre.selected_object, "no player found"@)
            },
        },
        EditorCommand::SelectNearestToPlayer => match player {
            Some(position) => {
                &&& post_level == level
                &&& selected_nearest(pre, level, position, distance_key, post)
            },
            None => {
                &&& post_level == level
                &&& only_reported(pre, post, pre.selected_object, "no player found"@)
            },
        },
        _ => {
            &&& post == pre
            &&& post_level == level
        },
    }
}

/// `editors`/`levels` are the states before and after each of `commands`.
pub open spec fn object_trace<O, D, P, S: Fn(&O) -> O, K: Fn(&O, &P) -> i32, M: Fn(&P) -> O>(
    editors: Seq<EditorState<O, D>>,
    levels: Seq<Level<O, D>>,
    commands: Seq<EditorCommand>,
    player: Option<P>,
    shifted: S,
    distance_key: K,
    make_object: M,
) -> bool {
    &&& editors.len() == commands.len() + 1
    &&& levels.len() == commands.len() + 1
    &&& forall|i: int|
        0 <= i < commands.len() ==> #[trigger] object_command_step(
            editors[i],
            levels[i],
            commands[i],
            player,
            shifted,
            distance_key,
            make_object,
            editors[i + 1],
            levels[i + 1],
        )
}

/// Applies one object command. `player` is the player's position, if there
/// is a player; `shifted` makes the copy of a duplicated object,
/// `distance_key` orders objects by distance to a position, and
/// `make_object` makes a new object at a position.
pub fn apply_object_command<O: Clone, D: Clone, P, S: Fn(&O) -> O, K: Fn(&O, &P) -> i32, M: Fn(&P) -> O>(
    editor: &mut EditorState<O, D>,
    level: &mut Level<O, D>,
    command: EditorCommand,
    player: &Option<P>,
    shifted: &S,
    distance_key: &K,
    make_object: &M,
)
    requires
        forall|object: &O| shifted.requires((object,)),
        forall|object: &O, at: &P| distance_key.requires((object, at)),
        forall|at: &P| make_object.requires((at,)),
    ensures
        object_command_step(*old(editor), *old(level), command, *player, *shifted, *distance_key, *make_object, *final(editor), *final(level)),
{
    match command {
        EditorCommand::Duplicate => duplicate_selected(editor, level, shifted),
        EditorCommand::DeleteSelected => delete_selected(editor, level),
        EditorCommand::AddObjectAtPlayer => match player {
            Some(position) => {
                let object = make_object(position);
                add_object_at(editor, level, object);
            },
            None => {
                editor.status = "no player found".to_string();
            },
        },
        EditorCommand::SelectNearestToPlayer => match player {
            Some(position) => select_nearest(editor, level, position, distance_key),
            None => {
                editor.status = "no player found".to_string();
            },
        },
        _ => {},
    }
}

/// Applies the object commands in order.
pub fn apply_object_commands<O: Clone, D: Clone, P, S: Fn(&O) -> O, K: Fn(&O, &P) -> i32, M: Fn(&P) -> O>(
    editor: &mut EditorState<O, D>,
    level: &mut Level<O, D>,
    commands: &Vec<EditorCommand>,
    player: &Option<P>,
    shifted: &S,
    distance_key: &K,
    make_object: &M,
)
    requires
        forall|object: &O| shifted.requires((object,)),
        forall|object: &O, at: &P| distance_key.requires((object, at)),
        forall|at: &P| make_object.requires((at,)),
    ensures
        exists|editors: Seq<EditorState<O, D>>, levels: Seq<Level<O, D>>|
            #[trigger] object_trace(editors, levels, commands@, *player, *shifted, *distance_key, *make_object)
            && editors[0] == *old(editor)
            && levels[0] == *old(level)
            && editors.last() == *final(editor)
            && levels.last() == *final(level),
{
    let ghost mut editors = seq![*editor];
    let ghost mut levels = seq![*level];
    let mut i: usize = 0;
    while i < commands.len()
        invariant
            0 <= i <= commands.len(),
            forall|object: &O| shifted.requires((object,)),
            forall|object: &O, at: &P| distance_key.requires((object, at)),
            forall|at: &P| make_object.requires((at,)),
            object_trace(editors, levels, commands@.take(i as int), *player, *shifted, *distance_key, *make_object),
            editors[0] == *old(editor),
            levels[0] == *old(level),
            editors.last() == *editor,
            levels.last() == *level,
        decreases commands.len() - i,
    {
        apply_object_command(editor, level, commands[i], player, shifted, distance_key, make_object);
        proof {
            editors = editors.push(*editor);
            levels = levels.push(*level);
            assert forall|k: int| 0 <= k < (i + 1) as int implies #[trigger] object_command_step(
                editors[k],
                levels[k],
                commands@.take((i + 1) as int)[k],
                *player,
                *shifted,
                *distance_key,
                *make_object,
                editors[k + 1],
                levels[k + 1],
            ) by {
                if k < i {
                    assert(commands@.take(i as int)[k] == commands@.take((i + 1) as int)[k]);
                }
            }
        }
        i = i + 1;
    }
    assert(commands@.take(commands.len() as int) == commands@);
}

} // verus!
