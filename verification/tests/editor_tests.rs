use level_editor::commands::EditorCommand;
use level_editor::focus::{handle_focus, settle_focus_timer, GraceTimer, FOCUS_TEST_GRACE_NANOS};
use level_editor::history::{handle_history, handle_history_command};
use level_editor::level::Level;
use level_editor::model::EditorState;
use level_editor::objects::{
    add_object_at, apply_object_command, apply_object_commands, delete_selected, duplicate_selected, select_nearest,
};
use level_editor::save::{apply_saves, apply_tests, record_save_result};
use level_editor::ui::finish_ui_frame;

type TestLevel = Level<i32, String>;
type TestEditor = EditorState<i32, String>;

fn level(objects: &[i32]) -> TestLevel {
    Level { objects: objects.to_vec(), data: "level".to_string() }
}

fn editor_for(level: &TestLevel) -> TestEditor {
    let mut editor = TestEditor::default();
    editor.sync_to_current_level(true, level);
    editor
}

fn shifted(o: &i32) -> i32 {
    *o + 32
}

fn distance_key(o: &i32, p: &i32) -> i32 {
    (*o - *p).abs()
}

fn make_object(p: &i32) -> i32 {
    *p
}

#[test]
fn default_editor_is_blank() {
    let editor = TestEditor::default();
    assert_eq!(editor.selected_object, None);
    assert_eq!(editor.status, "");
    assert!(!editor.dirty);
    assert!(!editor.refresh_pending);
    assert_eq!(editor.history.len(), 0);
    assert!(editor.focus_test_timer.is_none());
}

#[test]
fn mark_changed_sets_flags() {
    let mut editor = TestEditor::default();
    editor.mark_changed();
    assert!(editor.dirty);
    assert!(editor.refresh_pending);
    assert_eq!(editor.status, "edited level data");
}

#[test]
fn clamp_selection_drops_stale_index() {
    let lvl = level(&[1, 2]);
    let mut editor = TestEditor::default();
    editor.selected_object = Some(2);
    editor.clamp_selection(&lvl);
    assert_eq!(editor.selected_object, None);
    editor.selected_object = Some(1);
    editor.clamp_selection(&lvl);
    assert_eq!(editor.selected_object, Some(1));
}

#[test]
fn sync_resets_only_when_changed() {
    let lvl = level(&[1]);
    let mut editor = TestEditor::default();
    editor.dirty = true;
    editor.refresh_pending = true;
    editor.selected_object = Some(3);
    editor.sync_to_current_level(false, &lvl);
    assert!(editor.dirty);
    assert_eq!(editor.selected_object, Some(3));
    editor.sync_to_current_level(true, &lvl);
    assert!(!editor.dirty);
    assert!(!editor.refresh_pending);
    assert_eq!(editor.selected_object, None);
    assert_eq!(editor.history.len(), 1);
}

#[test]
fn undo_reverts_recorded_edit() {
    let mut lvl = level(&[1, 2]);
    let mut editor = editor_for(&lvl);
    lvl.objects.push(3);
    editor.mark_changed();
    assert_eq!(handle_history_command(&mut editor, &mut lvl, EditorCommand::FinishPendingEdit), 1);
    assert_eq!(editor.history.len(), 2);
    assert_eq!(handle_history_command(&mut editor, &mut lvl, EditorCommand::Undo), 1);
    assert_eq!(lvl.objects, vec![1, 2]);
    assert_eq!(editor.status, "undid level edit");
    assert!(editor.dirty);
    assert!(!editor.refresh_pending);
    assert_eq!(handle_history_command(&mut editor, &mut lvl, EditorCommand::Redo), 1);
    assert_eq!(lvl.objects, vec![1, 2, 3]);
    assert_eq!(editor.status, "redid level edit");
}

#[test]
fn undo_records_pending_edit_first() {
    let mut lvl = level(&[1]);
    let mut editor = editor_for(&lvl);
    lvl.objects.push(2);
    editor.mark_changed();
    // the pending edit is recorded (one refresh) and then undone (another)
    assert_eq!(handle_history_command(&mut editor, &mut lvl, EditorCommand::Undo), 2);
    assert_eq!(lvl.objects, vec![1]);
    assert_eq!(handle_history_command(&mut editor, &mut lvl, EditorCommand::Redo), 1);
    assert_eq!(lvl.objects, vec![1, 2]);
}

#[test]
fn undo_with_nothing_to_undo_reports() {
    let mut lvl = level(&[1]);
    let mut editor = editor_for(&lvl);
    assert_eq!(handle_history_command(&mut editor, &mut lvl, EditorCommand::Undo), 0);
    assert_eq!(editor.status, "there is nothing to undo");
    assert_eq!(handle_history_command(&mut editor, &mut lvl, EditorCommand::Redo), 0);
    assert_eq!(editor.status, "there is nothing to redo");
    assert_eq!(lvl.objects, vec![1]);
    assert!(!editor.dirty);
}

#[test]
fn finish_without_pending_edit_does_nothing() {
    let mut lvl = level(&[1]);
    let mut editor = editor_for(&lvl);
    assert_eq!(handle_history_command(&mut editor, &mut lvl, EditorCommand::FinishPendingEdit), 0);
    assert_eq!(editor.history.len(), 1);
    assert_eq!(handle_history_command(&mut editor, &mut lvl, EditorCommand::Save), 0);
}

#[test]
fn undo_clamps_selection() {
    let mut lvl = level(&[1]);
    let mut editor = editor_for(&lvl);
    lvl.objects.push(2);
    editor.selected_object = Some(1);
    editor.mark_changed();
    handle_history_command(&mut editor, &mut lvl, EditorCommand::FinishPendingEdit);
    assert_eq!(editor.selected_object, Some(1));
    handle_history_command(&mut editor, &mut lvl, EditorCommand::Undo);
    assert_eq!(editor.selected_object, None);
}

#[test]
fn handle_history_counts_refreshes() {
    let mut lvl = level(&[1]);
    let mut editor = editor_for(&lvl);
    lvl.objects.push(2);
    editor.mark_changed();
    let commands = vec![
        EditorCommand::FinishPendingEdit,
        EditorCommand::Undo,
        EditorCommand::Undo,
        EditorCommand::Duplicate,
        EditorCommand::Redo,
    ];
    assert_eq!(handle_history(&mut editor, &mut lvl, &commands), 3);
    assert_eq!(lvl.objects, vec![1, 2]);
}

#[test]
fn duplicate_without_selection_reports() {
    let mut lvl = level(&[1]);
    let mut editor = editor_for(&lvl);
    duplicate_selected(&mut editor, &mut lvl, &shifted);
    assert_eq!(editor.status, "no object selected to duplicate");
    assert_eq!(lvl.objects, vec![1]);
}

#[test]
fn duplicate_of_vanished_object_deselects() {
    let mut lvl = level(&[1]);
    let mut editor = editor_for(&lvl);
    editor.selected_object = Some(4);
    duplicate_selected(&mut editor, &mut lvl, &shifted);
    assert_eq!(editor.status, "selected object no longer exists");
    assert_eq!(editor.selected_object, None);
    assert_eq!(lvl.objects, vec![1]);
}

#[test]
fn duplicate_appends_shifted_copy_and_selects_it() {
    let mut lvl = level(&[1, 5]);
    let mut editor = editor_for(&lvl);
    editor.selected_object = Some(0);
    duplicate_selected(&mut editor, &mut lvl, &shifted);
    assert_eq!(lvl.objects, vec![1, 5, 33]);
    assert_eq!(editor.selected_object, Some(2));
    assert!(editor.dirty);
    assert!(editor.refresh_pending);
    assert_eq!(editor.status, "edited level data");
}

#[test]
fn delete_removes_selected() {
    let mut lvl = level(&[1, 5, 7]);
    let mut editor = editor_for(&lvl);
    editor.selected_object = Some(1);
    delete_selected(&mut editor, &mut lvl);
    assert_eq!(lvl.objects, vec![1, 7]);
    assert_eq!(editor.selected_object, None);
    assert!(editor.dirty);
}

#[test]
fn delete_stale_selection_only_deselects() {
    let mut lvl = level(&[1]);
    let mut editor = editor_for(&lvl);
    editor.selected_object = Some(1);
    delete_selected(&mut editor, &mut lvl);
    assert_eq!(lvl.objects, vec![1]);
    assert_eq!(editor.selected_object, None);
    assert!(!editor.dirty);
    delete_selected(&mut editor, &mut lvl);
    assert_eq!(lvl.objects, vec![1]);
}

#[test]
fn add_object_selects_it() {
    let mut lvl = level(&[1]);
    let mut editor = editor_for(&lvl);
    add_object_at(&mut editor, &mut lvl, 9);
    assert_eq!(lvl.objects, vec![1, 9]);
    assert_eq!(editor.selected_object, Some(1));
    assert_eq!(editor.status, "edited level data");
}

#[test]
fn select_nearest_picks_first_closest() {
    let lvl = level(&[10, 3, 7, 3]);
    let mut editor = editor_for(&lvl);
    select_nearest(&mut editor, &lvl, &4, &distance_key);
    assert_eq!(editor.selected_object, Some(1));
    let empty = level(&[]);
    select_nearest(&mut editor, &empty, &4, &distance_key);
    assert_eq!(editor.selected_object, None);
}

#[test]
fn object_commands_need_a_player() {
    let mut lvl = level(&[1]);
    let mut editor = editor_for(&lvl);
    apply_object_command(&mut editor, &mut lvl, EditorCommand::AddObjectAtPlayer, &None, &shifted, &distance_key, &make_object);
    assert_eq!(editor.status, "no player found");
    assert_eq!(lvl.objects, vec![1]);
    editor.status = String::new();
    apply_object_command(&mut editor, &mut lvl, EditorCommand::SelectNearestToPlayer, &None, &shifted, &distance_key, &make_object);
    assert_eq!(editor.status, "no player found");
}

#[test]
fn object_commands_apply_in_order() {
    let mut lvl = level(&[1, 20]);
    let mut editor = editor_for(&lvl);
    let commands = vec![
        EditorCommand::AddObjectAtPlayer,
        EditorCommand::Duplicate,
        EditorCommand::SelectNearestToPlayer,
        EditorCommand::DeleteSelected,
        EditorCommand::Undo,
    ];
    apply_object_commands(&mut editor, &mut lvl, &commands, &Some(18), &shifted, &distance_key, &make_object);
    // add 18, duplicate it to 50, select nearest to 18 (index 2), delete it
    assert_eq!(lvl.objects, vec![1, 20, 50]);
    assert_eq!(editor.selected_object, None);
}

#[test]
fn saves_and_tests_are_requested_by_command() {
    assert!(apply_saves(&vec![EditorCommand::Undo, EditorCommand::Save]));
    assert!(!apply_saves(&vec![EditorCommand::Test]));
    assert!(apply_tests(&vec![EditorCommand::Test]));
    assert!(!apply_tests(&vec![]));
}

#[test]
fn save_result_is_reported() {
    let mut editor = TestEditor::default();
    editor.dirty = true;
    record_save_result(&mut editor, Err("disk full".to_string()));
    assert!(editor.dirty);
    assert_eq!(editor.status, "save failed: disk full");
    record_save_result(&mut editor, Ok("levels/one.ron".to_string()));
    assert!(!editor.dirty);
    assert_eq!(editor.status, "saved levels/one.ron");
}

#[test]
fn ui_frame_marks_edits_and_finishes_when_idle() {
    let lvl = level(&[1]);
    let mut editor = editor_for(&lvl);
    editor.selected_object = Some(5);
    assert!(!finish_ui_frame(&mut editor, &lvl, false, true));
    assert_eq!(editor.selected_object, Some(5));
    assert!(!editor.dirty);
    assert!(finish_ui_frame(&mut editor, &lvl, true, false));
    assert_eq!(editor.selected_object, None);
    assert!(editor.dirty);
    assert!(editor.refresh_pending);
}

const MS: u64 = 1_000_000;

#[test]
fn losing_focus_starts_playtest_after_grace() {
    let lvl = level(&[]);
    let mut editor = editor_for(&lvl);
    assert!(!handle_focus(&mut editor, false, &vec![false], 400 * MS));
    assert_eq!(editor.focus_test_timer, Some(GraceTimer { duration_nanos: FOCUS_TEST_GRACE_NANOS, elapsed_nanos: 400 * MS }));
    assert!(!handle_focus(&mut editor, false, &vec![], 400 * MS));
    assert_eq!(editor.focus_test_timer.unwrap().elapsed_nanos, 800 * MS);
    assert!(handle_focus(&mut editor, false, &vec![], 400 * MS));
    assert!(editor.focus_test_timer.is_none());
    assert!(!handle_focus(&mut editor, false, &vec![], 5000 * MS));
}

#[test]
fn fresh_timer_fires_after_exactly_the_grace_period() {
    let lvl = level(&[]);
    let mut editor = editor_for(&lvl);
    assert!(handle_focus(&mut editor, false, &vec![false], FOCUS_TEST_GRACE_NANOS));
    assert!(editor.focus_test_timer.is_none());
    assert!(!handle_focus(&mut editor, false, &vec![false], FOCUS_TEST_GRACE_NANOS - 1));
    assert_eq!(editor.focus_test_timer.unwrap().elapsed_nanos, FOCUS_TEST_GRACE_NANOS - 1);
    assert!(handle_focus(&mut editor, false, &vec![], 1));
}

#[test]
fn regaining_focus_or_moving_cancels_playtest() {
    let lvl = level(&[]);
    let mut editor = editor_for(&lvl);
    assert!(!handle_focus(&mut editor, false, &vec![false], 100 * MS));
    assert!(!handle_focus(&mut editor, false, &vec![false, true], 5000 * MS));
    assert!(editor.focus_test_timer.is_none());
    assert!(!handle_focus(&mut editor, false, &vec![true, false], 100 * MS));
    assert!(editor.focus_test_timer.is_some());
    assert!(!handle_focus(&mut editor, true, &vec![false], 5000 * MS));
    assert!(editor.focus_test_timer.is_none());
    assert!(handle_focus(&mut editor, false, &vec![false], 1000 * MS));
}

#[test]
fn settle_keeps_unfinished_timer() {
    let lvl = level(&[]);
    let mut editor = editor_for(&lvl);
    let timer = GraceTimer { duration_nanos: FOCUS_TEST_GRACE_NANOS, elapsed_nanos: 5 };
    assert!(!settle_focus_timer(&mut editor, timer, false));
    assert_eq!(editor.focus_test_timer, Some(timer));
    assert!(settle_focus_timer(&mut editor, timer, true));
    assert!(editor.focus_test_timer.is_none());
}
