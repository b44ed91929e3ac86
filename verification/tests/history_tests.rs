use level_editor::history::{History, HISTORY_LIMIT};

#[test]
fn empty_history_has_nothing_to_step() {
    let mut h: History<u32> = History::default();
    let mut level = 3u32;
    assert_eq!(h.step(-1, &mut level), Err("there is nothing to undo"));
    assert_eq!(h.step(1, &mut level), Err("there is nothing to redo"));
    assert_eq!(level, 3);
    assert_eq!(h.len(), 0);
}

#[test]
fn reset_holds_one_snapshot() {
    let mut h: History<u32> = History::new();
    h.push(&1);
    h.push(&2);
    h.reset(&9);
    assert_eq!(h.len(), 1);
    assert_eq!(h.position(), 0);
    let mut level = 9u32;
    assert_eq!(h.step(-1, &mut level), Err("there is nothing to undo"));
    assert_eq!(h.step(1, &mut level), Err("there is nothing to redo"));
    assert_eq!(level, 9);
}

#[test]
fn undo_after_push_restores_previous() {
    let mut h: History<String> = History::new();
    h.reset(&"a".to_string());
    h.push(&"b".to_string());
    let mut level = "b".to_string();
    assert_eq!(h.step(-1, &mut level), Ok("undid level edit"));
    assert_eq!(level, "a");
    assert_eq!(h.step(1, &mut level), Ok("redid level edit"));
    assert_eq!(level, "b");
    assert_eq!(h.step(1, &mut level), Err("there is nothing to redo"));
}

#[test]
fn push_discards_redo_branch() {
    let mut h: History<u32> = History::new();
    h.reset(&0);
    h.push(&1);
    h.push(&2);
    let mut level = 2u32;
    h.step(-1, &mut level).unwrap();
    h.step(-1, &mut level).unwrap();
    assert_eq!(level, 0);
    h.push(&5);
    assert_eq!(h.len(), 2);
    assert_eq!(h.position(), 1);
    assert_eq!(h.step(1, &mut level), Err("there is nothing to redo"));
    assert_eq!(h.step(-1, &mut level), Ok("undid level edit"));
    assert_eq!(level, 0);
}

#[test]
fn history_is_capped_and_drops_oldest() {
    let mut h: History<usize> = History::new();
    for i in 0..(HISTORY_LIMIT + 5) {
        h.push(&i);
    }
    assert_eq!(h.len(), HISTORY_LIMIT);
    assert_eq!(h.position(), HISTORY_LIMIT - 1);
    let mut level = 0usize;
    let mut undos = 0;
    while h.step(-1, &mut level).is_ok() {
        undos += 1;
    }
    assert_eq!(undos, HISTORY_LIMIT - 1);
    assert_eq!(level, 5);
}

#[test]
fn step_by_zero_redoes_current() {
    let mut h: History<u32> = History::new();
    h.reset(&4);
    let mut level = 0u32;
    assert_eq!(h.step(0, &mut level), Ok("redid level edit"));
    assert_eq!(level, 4);
}

#[test]
fn step_by_several_jumps() {
    let mut h: History<u32> = History::new();
    h.reset(&10);
    h.push(&11);
    h.push(&12);
    let mut level = 12u32;
    assert_eq!(h.step(-2, &mut level), Ok("undid level edit"));
    assert_eq!(level, 10);
    assert_eq!(h.step(3, &mut level), Err("there is nothing to redo"));
    assert_eq!(h.step(-1, &mut level), Err("there is nothing to undo"));
    assert_eq!(h.step(2, &mut level), Ok("redid level edit"));
    assert_eq!(level, 12);
}
