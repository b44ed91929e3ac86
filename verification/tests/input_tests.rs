use level_editor::commands::EditorCommand;
use level_editor::editor_input::editor_input;
use level_editor::input::{
    normalize_egui_modifiers, update, update_egui_input, update_terminal_input, EguiInput, EguiKeyEvent, InputState, Key,
    KeyEventKind, Modifiers, TerminalKeyCode, TerminalKeyEvent,
};

fn ctrl_cmd() -> Modifiers {
    Modifiers { alt: false, ctrl: true, shift: false, mac_cmd: false, command: true }
}

fn press(key: Key, modifiers: Modifiers) -> EguiKeyEvent {
    EguiKeyEvent { key, pressed: true, modifiers }
}

#[test]
fn normalizing_clears_command() {
    let m = normalize_egui_modifiers(ctrl_cmd());
    assert_eq!(m, Modifiers::ctrl());
    assert_eq!(EguiInput::with(Key::S, ctrl_cmd()), EguiInput { key: Key::S, modifiers: Modifiers::ctrl() });
    assert_eq!(EguiInput::new(Key::F).modifiers, Modifiers::none());
}

#[test]
fn terminal_presses_are_recorded_once() {
    let mut input = InputState::default();
    let events = vec![
        TerminalKeyEvent { code: TerminalKeyCode::Char('q'), kind: KeyEventKind::Press },
        TerminalKeyEvent { code: TerminalKeyCode::Char('q'), kind: KeyEventKind::Press },
        TerminalKeyEvent { code: TerminalKeyCode::Enter, kind: KeyEventKind::Release },
        TerminalKeyEvent { code: TerminalKeyCode::F(2), kind: KeyEventKind::Repeat },
    ];
    update_terminal_input(&events, &mut input);
    assert!(input.pressed(TerminalKeyCode::Char('q')));
    assert!(!input.pressed(TerminalKeyCode::Enter));
    assert!(!input.pressed(TerminalKeyCode::F(2)));
    assert!(!input.pressed(TerminalKeyCode::Char('w')));
}

#[test]
fn egui_presses_are_recorded_normalized() {
    let mut input = InputState::new();
    let events = vec![
        press(Key::Z, ctrl_cmd()),
        EguiKeyEvent { key: Key::A, pressed: false, modifiers: Modifiers::none() },
    ];
    update_egui_input(&events, &mut input);
    assert!(input.egui_pressed(EguiInput::with(Key::Z, Modifiers::ctrl())));
    assert!(!input.egui_pressed(EguiInput::new(Key::Z)));
    assert!(!input.egui_pressed(EguiInput::new(Key::A)));
}

#[test]
fn update_forgets_previous_frame() {
    let mut input = InputState::new();
    let first = vec![press(Key::Delete, Modifiers::none())];
    update(&vec![TerminalKeyEvent { code: TerminalKeyCode::Esc, kind: KeyEventKind::Press }], &mut input, Some(&first));
    assert!(input.pressed(TerminalKeyCode::Esc));
    assert!(input.egui_pressed(EguiInput::new(Key::Delete)));
    update(&vec![], &mut input, None);
    assert!(!input.pressed(TerminalKeyCode::Esc));
    assert!(!input.egui_pressed(EguiInput::new(Key::Delete)));
    input.clear();
    assert!(!input.pressed(TerminalKeyCode::Esc));
}

#[test]
fn shortcuts_emit_commands_in_table_order() {
    let mut input = InputState::new();
    let events = vec![
        press(Key::F, Modifiers::none()),
        press(Key::Y, Modifiers::ctrl()),
        press(Key::S, ctrl_cmd()),
        press(Key::Delete, Modifiers::none()),
        press(Key::D, Modifiers::none()),
    ];
    update(&vec![], &mut input, Some(&events));
    assert_eq!(
        editor_input(&input),
        vec![EditorCommand::Save, EditorCommand::Redo, EditorCommand::DeleteSelected, EditorCommand::SelectNearestToPlayer]
    );
}

#[test]
fn no_input_no_commands() {
    let input = InputState::new();
    assert!(editor_input(&input).is_empty());
}

#[test]
fn every_shortcut_maps_to_its_command() {
    let cases = [
        (Key::S, true, EditorCommand::Save),
        (Key::Z, true, EditorCommand::Undo),
        (Key::Y, true, EditorCommand::Redo),
        (Key::D, true, EditorCommand::Duplicate),
        (Key::Delete, false, EditorCommand::DeleteSelected),
        (Key::F, false, EditorCommand::SelectNearestToPlayer),
    ];
    for (key, ctrl, command) in cases {
        let mut input = InputState::new();
        let modifiers = if ctrl { Modifiers::ctrl() } else { Modifiers::none() };
        update(&vec![], &mut input, Some(&vec![press(key, modifiers)]));
        assert_eq!(editor_input(&input), vec![command]);
    }
}
