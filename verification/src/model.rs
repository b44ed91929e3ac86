//! Editor state shared by all editor systems.

use vstd::prelude::*;
use crate::focus::GraceTimer;
use crate::history::History;
use crate::level::Level;

verus! {

/// The selection after clamping it to a level with `count` objects: a
/// selection that no longer points at an object is dropped.
pub open spec fn clamped(selected: Option<usize>, count: int) -> Option<usize> {
    match selected {
        Some(index) => if index >= count { None } else { selected },
        None => None,
    }
}

/// Everything the editor remembers between frames.
pub struct EditorState<O, D> {
    pub selected_object: Option<usize>,
    pub status: String,
    pub dirty: bool,
    pub refresh_pending: bool,
    pub history: History<Level<O, D>>,
    pub focus_test_timer: Option<GraceTimer>,
}

impl<O, D> EditorState<O, D> {
    /// The history is well formed.
    pub open spec fn well_formed(&self) -> bool {
        self.history.well_formed()
    }
}

impl<O, D> Default for EditorState<O, D> {
    /// Nothing selected, no status, nothing changed, empty history, no timer.
    fn default() -> (s: Self)
        ensures
            s.well_formed(),
            s.selected_object is None,
            s.status@ == Seq::<char>::empty(),
            !s.dirty,
            !s.refresh_pending,
            s.history.snapshots() == Seq::<Level<O, D>>::empty(),
            s.history.cursor() == 0,
            s.focus_test_timer is None,
    {
        EditorState {
            selected_object: None,
            status: String::new(),
            dirty: false,
            refresh_pending: false,
            history: History::new(),
            focus_test_timer: None,
        }
    }
}

impl<O: Clone, D: Clone> EditorState<O, D> {
    /// Notes that the level data was edited and still has to be recorded.
    pub fn mark_changed(&mut self)
        ensures
            final(self).dirty,
            final(self).status@ == "edited level data"@,
            final(self).refresh_pending,
            final(self).selected_object == old(self).selected_object,
            final(self).history == old(self).history,
            final(self).focus_test_timer == old(self).focus_test_timer,
    {
        self.dirty = true;
        self.status = "edited level data".to_string();
        self.refresh_pending = true;
    }

    /// Starts editing `level` afresh when the current level changed: the
    /// history holds only a copy of it, nothing is dirty or pending, and the
    /// selection is clamped to it. Otherwise nothing changes.
    pub fn sync_to_current_level(&mut self, level_changed: bool, level: &Level<O, D>)
        ensures
            final(self).well_formed() == (level_changed || old(self).well_formed()),
            !level_changed ==> *final(self) == *old(self),
            level_changed ==> {
                &&& final(self).history.snapshots().len() == 1
                &&& cloned(*level, final(self).history.snapshots()[0])
                &&& final(self).history.cursor() == 0
                &&& !final(self).dirty
                &&& !final(self).refresh_pending
                &&& final(self).selected_object == clamped(old(self).selected_object, level.objects.len() as int)
                &&& final(self).status == old(self).status
                &&& final(self).focus_test_timer == old(self).focus_test_timer
            },
    {
        if level_changed {
            self.history.reset(level);
            self.dirty = false;
            self.refresh_pending = false;
            self.clamp_selection(level);
        }
    }

    /// Drops a selection that points past the level's objects.
    pub fn clamp_selection(&mut self, level: &Level<O, D>)
        ensures
            final(self).selected_object == clamped(old(self).selected_object, level.objects.len() as int),
            final(self).status == old(self).status,
            final(self).dirty == old(self).dirty,
            final(self).refresh_pending == old(self).refresh_pending,
            final(self).history == old(self).history,
            final(self).focus_test_timer == old(self).focus_test_timer,
    {
        if let Some(index) = self.selected_object {
            if index >= level.objects.len() {
                self.selected_object = None;
            }
        }
    }
}

} // verus!
