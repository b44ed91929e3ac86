//! Starting a playtest when the editor window loses focus.

use vstd::prelude::*;
use bevy::time::{Timer, TimerMode};
use core::time::Duration;
use crate::model::EditorState;

verus! {

/// Nanoseconds the editor window must stay unfocused before a playtest starts.
pub const FOCUS_TEST_GRACE_NANOS: u64 = 1_000_000_000;

/// A one-shot countdown: how long it runs for, and how long it has run.
#[derive(Clone, Copy, Debug, PartialEq, Eq, Structural)]
pub struct GraceTimer {
    pub duration_nanos: u64,
    pub elapsed_nanos: u64,
}

/// A fresh grace timer, as bevy's `Timer::new` makes it: nothing elapsed yet.
pub open spec fn fresh_grace_timer() -> GraceTimer {
    GraceTimer { duration_nanos: FOCUS_TEST_GRACE_NANOS, elapsed_nanos: 0 }
}

/// bevy's `Timer::tick` by `delta_nanos` on a one-shot timer of
/// `duration_nanos` that has run for `elapsed_nanos` and has not finished.
/// Claims what bevy's source does: the timer finishes exactly when the
/// elapsed time plus the delta reaches the duration, and its elapsed time is
/// then the duration, else the sum. Returns (finished, elapsed).
#[verifier::external_body]
fn tick_once_timer(duration_nanos: u64, elapsed_nanos: u64, delta_nanos: u64) -> (r: (bool, u64))
    ensures
        r.0 == (elapsed_nanos + delta_nanos >= duration_nanos),
        r.1 == (if r.0 { duration_nanos as int } else { elapsed_nanos + delta_nanos }),
{
    let mut timer = Timer::new(Duration::from_nanos(duration_nanos), TimerMode::Once);
    timer.set_elapsed(Duration::from_nanos(elapsed_nanos));
    timer.tick(Duration::from_nanos(delta_nanos));
    (timer.is_finished(), timer.elapsed().as_nanos() as u64)
}

/// The focus state that the last of `changes` reports, if there is one.
pub open spec fn last_focus(changes: Seq<bool>) -> Option<bool> {
    if changes.len() == 0 {
        None
    } else {
        Some(changes.last())
    }
}

/// The timer that runs once this frame's focus changes are taken into
/// account: a fresh one after losing focus, none after regaining it, and the
/// old one when focus did not change.
pub open spec fn timer_before_tick(old_timer: Option<GraceTimer>, changes: Seq<bool>) -> Option<GraceTimer> {
    match last_focus(changes) {
        Some(false) => Some(fresh_grace_timer()),
        Some(true) => None,
        None => old_timer,
    }
}

/// Keeps a ticked timer that has not finished; drops a finished one and
/// reports that the playtest is due.
pub fn settle_focus_timer<O, D>(editor: &mut EditorState<O, D>, timer: GraceTimer, finished: bool) -> (test: bool)
    ensures
        test == finished,
        final(editor).focus_test_timer == (if finished { None } else { Some(timer) }),
        final(editor).selected_object == old(editor).selected_object,
        final(editor).status == old(editor).status,
        final(editor).dirty == old(editor).dirty,
        final(editor).refresh_pending == old(editor).refresh_pending,
        final(editor).history == old(editor).history,
{
    if finished {
        editor.focus_test_timer = None;
        true
    } else {
        editor.focus_test_timer = Some(timer);
        false
    }
}

/// Handles this frame's window events of the editor window: a move cancels a
/// pending playtest; losing focus (the last focus change) starts the grace
/// timer, regaining it cancels it. A running timer is then ticked by
/// `delta_nanos`; when its elapsed time reaches its duration it is dropped
/// and the playtest is due (the result), else it is kept, ticked.
pub fn handle_focus<O, D>(
    editor: &mut EditorState<O, D>,
    window_moved: bool,
    focus_changes: &Vec<bool>,
    delta_nanos: u64,
) -> (test: bool)
    ensures
        final(editor).selected_object == old(editor).selected_object,
        final(editor).status == old(editor).status,
        final(editor).dirty == old(editor).dirty,
        final(editor).refresh_pending == old(editor).refresh_pending,
        final(editor).history == old(editor).history,
        window_moved ==> !test && final(editor).focus_test_timer is None,
        !window_moved ==> match timer_before_tick(old(editor).focus_test_timer, focus_changes@) {
            None => !test && final(editor).focus_test_timer is None,
            Some(timer) => {
                &&& test == (timer.elapsed_nanos + delta_nanos >= timer.duration_nanos)
                &&& test ==> final(editor).focus_test_timer is None
                &&& !test ==> final(editor).focus_test_timer == Some(GraceTimer {
                    duration_nanos: timer.duration_nanos,
                    elapsed_nanos: (timer.elapsed_nanos + delta_nanos) as u64,
                })
            },
        },
{
    if window_moved {
        editor.focus_test_timer = None;
        return false;
    }

    let count = focus_changes.len();
    if count > 0 {
        if focus_changes[count - 1] {
            editor.focus_test_timer = None;
        } else {
            editor.focus_test_timer = Some(GraceTimer { duration_nanos: FOCUS_TEST_GRACE_NANOS, elapsed_nanos: 0 });
        }
    }

    match editor.focus_test_timer {
        None => false,
        Some(timer) => {
            let (finished, elapsed_nanos) = tick_once_timer(timer.duration_nanos, timer.elapsed_nanos, delta_nanos);
            let ticked = GraceTimer { duration_nanos: timer.duration_nanos, elapsed_nanos };
            settle_focus_timer(editor, ticked, finished)
        },
    }
}

} // verus!
