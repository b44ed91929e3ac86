//! Keyboard input gathered once per frame from the terminal and from egui.

use vstd::prelude::*;

verus! {

/// A key as egui names it.
#[derive(Clone, Copy, Debug, PartialEq, Eq, Hash, Structural)]
pub enum Key {
    ArrowDown,
    ArrowLeft,
    ArrowRight,
    ArrowUp,
    Escape,
    Tab,
    Backspace,
    Enter,
    Space,
    Insert,
    Delete,
    Home,
    End,
    PageUp,
    PageDown,
    Copy,
    Cut,
    Paste,
    Colon,
    Comma,
    Backslash,
    Slash,
    Pipe,
    Questionmark,
    Exclamationmark,
    OpenBracket,
    CloseBracket,
    OpenCurlyBracket,
    CloseCurlyBracket,
    Backtick,
    Minus,
    Period,
    Plus,
    Equals,
    Semicolon,
    Quote,
    Num0,
    Num1,
    Num2,
    Num3,
    Num4,
    Num5,
    Num6,
    Num7,
    Num8,
    Num9,
    A,
    B,
    C,
    D,
    E,
    F,
    G,
    H,
    I,
    J,
    K,
    L,
    M,
    N,
    O,
    P,
    Q,
    R,
    S,
    T,
    U,
    V,
    W,
    X,
    Y,
    Z,
    F1,
    F2,
    F3,
    F4,
    F5,
    F6,
    F7,
    F8,
    F9,
    F10,
    F11,
    F12,
    F13,
    F14,
    F15,
    F16,
    F17,
    F18,
    F19,
    F20,
    F21,
    F22,
    F23,
    F24,
    F25,
    F26,
    F27,
    F28,
    F29,
    F30,
    F31,
    F32,
    F33,
    F34,
    F35,
    BrowserBack,
    BrowserForward,
    BrowserRefresh,
    BrowserSearch,
    BrowserHome,
    BrowserFavorites,
    BrowserStop,
    MediaPlayPause,
    MediaTrackNext,
    MediaTrackPrevious,
    MediaStop,
    AudioVolumeMute,
    AudioVolumeDown,
    AudioVolumeUp,
    LaunchMail,
    LaunchApp1,
    LaunchApp2,
    ShiftLeft,
    ShiftRight,
    ControlLeft,
    ControlRight,
    AltLeft,
    AltRight,
    SuperLeft,
    SuperRight,
    IntlBackslash,
    CapsLock,
    NumLock,
    ScrollLock,
    PrintScreen,
    Pause,
    Menu,
    Fn,
    Eject,
    Help,
    Power,
    Sleep,
    Clear,
}

/// The modifier keys held with a key press, as egui reports them.
#[derive(Clone, Copy, Debug, PartialEq, Eq, Hash, Structural)]
pub struct Modifiers {
    pub alt: bool,
    pub ctrl: bool,
    pub shift: bool,
    pub mac_cmd: bool,
    pub command: bool,
}

impl Modifiers {
    /// No modifier held.
    pub fn none() -> (m: Modifiers)
        ensures
            m == (Modifiers { alt: false, ctrl: false, shift: false, mac_cmd: false, command: false }),
    {
        Modifiers { alt: false, ctrl: false, shift: false, mac_cmd: false, command: false }
    }

    /// Only control held.
    pub fn ctrl() -> (m: Modifiers)
        ensures
            m == (Modifiers { alt: false, ctrl: true, shift: false, mac_cmd: false, command: false }),
    {
        Modifiers { alt: false, ctrl: true, shift: false, mac_cmd: false, command: false }
    }
}

/// A media key reported by the terminal.
#[derive(Clone, Copy, Debug, PartialEq, Eq, Hash, Structural)]
pub enum MediaKeyCode {
    Play,
    Pause,
    PlayPause,
    Reverse,
    Stop,
    FastForward,
    Rewind,
    TrackNext,
    TrackPrevious,
    Record,
    LowerVolume,
    RaiseVolume,
    MuteVolume,
}

/// A modifier key reported on its own by the terminal.
#[derive(Clone, Copy, Debug, PartialEq, Eq, Hash, Structural)]
pub enum ModifierKeyCode {
    LeftShift,
    LeftControl,
    LeftAlt,
    LeftSuper,
    LeftHyper,
    LeftMeta,
    RightShift,
    RightControl,
    RightAlt,
    RightSuper,
    RightHyper,
    RightMeta,
    IsoLevel3Shift,
    IsoLevel5Shift,
}

/// A key as the terminal reports it.
#[derive(Clone, Copy, Debug, PartialEq, Eq, Hash, Structural)]
pub enum TerminalKeyCode {
    Backspace,
    Enter,
    Left,
    Right,
    Up,
    Down,
    Home,
    End,
    PageUp,
    PageDown,
    Tab,
    BackTab,
    Delete,
    Insert,
    F(u8),
    Char(char),
    Null,
    Esc,
    CapsLock,
    ScrollLock,
    NumLock,
    PrintScreen,
    Pause,
    Menu,
    KeypadBegin,
    Media(MediaKeyCode),
    Modifier(ModifierKeyCode),
}


/// The modifiers with `command` cleared, so that a shortcut matches whatever
/// platform reported it.
pub open spec fn normalized(modifiers: Modifiers) -> Modifiers {
    Modifiers { command: false, ..modifiers }
}

/// Clears `command` from the modifiers.
pub fn normalize_egui_modifiers(modifiers: Modifiers) -> (m: Modifiers)
    ensures
        m == normalized(modifiers),
{
    Modifiers {
        alt: modifiers.alt,
        ctrl: modifiers.ctrl,
        shift: modifiers.shift,
        mac_cmd: modifiers.mac_cmd,
        command: false,
    }
}

/// A key pressed in egui together with its (normalized) modifiers.
#[derive(Clone, Copy, Debug, PartialEq, Eq, Hash, Structural)]
pub struct EguiInput {
    pub key: Key,
    pub modifiers: Modifiers,
}

impl EguiInput {
    /// The key pressed on its own.
    pub fn new(key: Key) -> (input: Self)
        ensures
            input.key == key,
            input.modifiers == (Modifiers { alt: false, ctrl: false, shift: false, mac_cmd: false, command: false }),
    {
        EguiInput { key, modifiers: Modifiers::none() }
    }

    /// The key pressed with `modifiers`, normalized.
    pub fn with(key: Key, modifiers: Modifiers) -> (input: Self)
        ensures
            input.key == key,
            input.modifiers == normalized(modifiers),
    {
        EguiInput { key, modifiers: normalize_egui_modifiers(modifiers) }
    }
}

/// How a terminal key event came about.
#[derive(Clone, Copy, Debug, PartialEq, Eq, Hash, Structural)]
pub enum KeyEventKind {
    Press,
    Repeat,
    Release,
}

/// A key event read from the terminal.
#[derive(Clone, Copy, Debug, PartialEq, Eq, Structural)]
pub struct TerminalKeyEvent {
    pub code: TerminalKeyCode,
    pub kind: KeyEventKind,
}

/// A key event read from egui.
#[derive(Clone, Copy, Debug, PartialEq, Eq, Structural)]
pub struct EguiKeyEvent {
    pub key: Key,
    pub pressed: bool,
    pub modifiers: Modifiers,
}

/// The keys pressed during the current frame.
pub struct InputState {
    terminal: Vec<TerminalKeyCode>,
    egui: Vec<EguiInput>,
}

/// The terminal keys pressed by `events`.
pub open spec fn terminal_presses(events: Seq<TerminalKeyEvent>) -> Set<TerminalKeyCode> {
    Set::new(|key: TerminalKeyCode| exists|i: int| 0 <= i < events.len() && #[trigger] events[i].kind == KeyEventKind::Press && events[i].code == key)
}

/// The egui inputs pressed by `events`, with normalized modifiers.
pub open spec fn egui_presses(events: Seq<EguiKeyEvent>) -> Set<EguiInput> {
    Set::new(|input: EguiInput| exists|i: int| 0 <= i < events.len() && #[trigger] events[i].pressed
        && input == (EguiInput { key: events[i].key, modifiers: normalized(events[i].modifiers) }))
}

impl InputState {
    /// Terminal keys pressed this frame.
    pub closed spec fn terminal_keys(&self) -> Set<TerminalKeyCode> {
        self.terminal@.to_set()
    }

    /// egui inputs pressed this frame.
    pub closed spec fn egui_inputs(&self) -> Set<EguiInput> {
        self.egui@.to_set()
    }

    /// Each key is recorded at most once.
    pub closed spec fn well_formed(&self) -> bool {
        self.terminal@.no_duplicates() && self.egui@.no_duplicates()
    }

    /// Nothing pressed.
    pub fn new() -> (s: Self)
        ensures
            s.well_formed(),
            s.terminal_keys() == Set::<TerminalKeyCode>::empty(),
            s.egui_inputs() == Set::<EguiInput>::empty(),
    {
        let s = InputState { terminal: Vec::new(), egui: Vec::new() };
        assert(s.terminal@.to_set() =~= Set::<TerminalKeyCode>::empty());
        assert(s.egui@.to_set() =~= Set::<EguiInput>::empty());
        s
    }

    /// Whether the terminal key was pressed this frame.
    pub fn pressed(&self, key: TerminalKeyCode) -> (r: bool)
        ensures
            r == self.terminal_keys().contains(key),
    {
        let mut i: usize = 0;
        while i < self.terminal.len()
            invariant
                0 <= i <= self.terminal.len(),
                forall|j: int| 0 <= j < i ==> self.terminal@[j] != key,
            decreases self.terminal.len() - i,
        {
            if self.terminal[i] == key {
                assert(self.terminal@.contains(key));
                return true;
            }
            i = i + 1;
        }
        false
    }

    /// Whether the egui input was pressed this frame.
    pub fn egui_pressed(&self, input: EguiInput) -> (r: bool)
        ensures
            r == self.egui_inputs().contains(input),
    {
        let mut i: usize = 0;
        while i < self.egui.len()
            invariant
                0 <= i <= self.egui.len(),
                forall|j: int| 0 <= j < i ==> self.egui@[j] != input,
            decreases self.egui.len() - i,
        {
            if self.egui[i] == input {
                assert(self.egui@.contains(input));
                return true;
            }
            i = i + 1;
        }
        false
    }

    /// Forgets every press.
    pub fn clear(&mut self)
        ensures
            final(self).well_formed(),
            final(self).terminal_keys() == Set::<TerminalKeyCode>::empty(),
            final(self).egui_inputs() == Set::<EguiInput>::empty(),
    {
        self.terminal.clear();
        self.egui.clear();
        assert(self.terminal@.to_set() =~= Set::<TerminalKeyCode>::empty());
        assert(self.egui@.to_set() =~= Set::<EguiInput>::empty());
    }

    /// Records a terminal key press.
    fn insert_terminal(&mut self, key: TerminalKeyCode)
        requires
            old(self).well_formed(),
        ensures
            final(self).well_formed(),
            final(self).terminal_keys() == old(self).terminal_keys().insert(key),
            final(self).egui_inputs() == old(self).egui_inputs(),
    {
        if !self.pressed(key) {
            self.terminal.push(key);
        }
        assert forall|k| #[trigger] self.terminal@.contains(k) == (old(self).terminal@.contains(k) || k == key) by {
            if self.terminal@.contains(k) {
                let j = choose|j: int| 0 <= j < self.terminal@.len() && self.terminal@[j] == k;
                if j < old(self).terminal@.len() {
                    assert(old(self).terminal@[j] == k);
                }
            }
            if old(self).terminal@.contains(k) {
                let j = choose|j: int| 0 <= j < old(self).terminal@.len() && old(self).terminal@[j] == k;
                assert(self.terminal@[j] == k);
            }
            if k == key && !old(self).terminal@.contains(k) {
                assert(self.terminal@[self.terminal@.len() - 1] == k);
            }
        }
        assert(self.terminal@.to_set() =~= old(self).terminal@.to_set().insert(key));
    }

    /// Records an egui key press.
    fn insert_egui(&mut self, input: EguiInput)
        requires
            old(self).well_formed(),
        ensures
            final(self).well_formed(),
            final(self).egui_inputs() == old(self).egui_inputs().insert(input),
            final(self).terminal_keys() == old(self).terminal_keys(),
    {
        if !self.egui_pressed(input) {
            self.egui.push(input);
        }
        assert forall|k| #[trigger] self.egui@.contains(k) == (old(self).egui@.contains(k) || k == input) by {
            if self.egui@.contains(k) {
                let j = choose|j: int| 0 <= j < self.egui@.len() && self.egui@[j] == k;
                if j < old(self).egui@.len() {
                    assert(old(self).egui@[j] == k);
                }
            }
            if old(self).egui@.contains(k) {
                let j = choose|j: int| 0 <= j < old(self).egui@.len() && old(self).egui@[j] == k;
                assert(self.egui@[j] == k);
            }
            if k == input && !old(self).egui@.contains(k) {
                assert(self.egui@[self.egui@.len() - 1] == k);
            }
        }
        assert(self.egui@.to_set() =~= old(self).egui@.to_set().insert(input));
    }
}

impl Default for InputState {
    /// Nothing pressed.
    fn default() -> (s: Self)
        ensures
            s.well_formed(),
            s.terminal_keys() == Set::<TerminalKeyCode>::empty(),
            s.egui_inputs() == Set::<EguiInput>::empty(),
    {
        InputState::new()
    }
}

/// Records every terminal key press among `events`; repeats and releases are ignored.
pub fn update_terminal_input(events: &Vec<TerminalKeyEvent>, input: &mut InputState)
    requires
        old(input).well_formed(),
    ensures
        final(input).well_formed(),
        final(input).terminal_keys() == old(input).terminal_keys() + terminal_presses(events@),
        final(input).egui_inputs() == old(input).egui_inputs(),
{
    let mut i: usize = 0;
    while i < events.len()
        invariant
            0 <= i <= events.len(),
            input.well_formed(),
            input.terminal_keys() == old(input).terminal_keys() + terminal_presses(events@.take(i as int)),
            input.egui_inputs() == old(input).egui_inputs(),
        decreases events.len() - i,
    {
        let event = events[i];
        if event.kind == KeyEventKind::Press {
            input.insert_terminal(event.code);
        }
        proof {
            let before = events@.take(i as int);
            let after = events@.take(i + 1);
            assert forall|k: TerminalKeyCode| #[trigger] terminal_presses(after).contains(k) == (terminal_presses(before).contains(k) || (event.kind == KeyEventKind::Press && event.code == k)) by {
                if terminal_presses(after).contains(k) {
                    let j = choose|j: int| 0 <= j < after.len() && #[trigger] after[j].kind == KeyEventKind::Press && after[j].code == k;
                    if j < i {
                        assert(before[j] == after[j]);
                    }
                }
                if terminal_presses(before).contains(k) {
                    let j = choose|j: int| 0 <= j < before.len() && #[trigger] before[j].kind == KeyEventKind::Press && before[j].code == k;
                    assert(before[j] == after[j]);
                }
                if event.kind == KeyEventKind::Press && event.code == k {
                    assert(after[i as int] == event);
                }
            }
            assert(input.terminal_keys() =~= old(input).terminal_keys() + terminal_presses(after));
        }
        i = i + 1;
    }
    assert(events@.take(events.len() as int) == events@);
}

/// Records every egui key press among `events`, with normalized modifiers.
pub fn update_egui_input(events: &Vec<EguiKeyEvent>, input: &mut InputState)
    requires
        old(input).well_formed(),
    ensures
        final(input).well_formed(),
        final(input).egui_inputs() == old(input).egui_inputs() + egui_presses(events@),
        final(input).terminal_keys() == old(input).terminal_keys(),
{
    let mut i: usize = 0;
    while i < events.len()
        invariant
            0 <= i <= events.len(),
            input.well_formed(),
            input.egui_inputs() == old(input).egui_inputs() + egui_presses(events@.take(i as int)),
            input.terminal_keys() == old(input).terminal_keys(),
        decreases events.len() - i,
    {
        let event = events[i];
        let pressed_input = EguiInput { key: event.key, modifiers: normalize_egui_modifiers(event.modifiers) };
        if event.pressed {
            input.insert_egui(pressed_input);
        }
        proof {
            let before = events@.take(i as int);
            let after = events@.take(i + 1);
            assert forall|k: EguiInput| #[trigger] egui_presses(after).contains(k) == (egui_presses(before).contains(k) || (event.pressed && pressed_input == k)) by {
                if egui_presses(after).contains(k) {
                    let j = choose|j: int| 0 <= j < after.len() && #[trigger] after[j].pressed
                        && k == (EguiInput { key: after[j].key, modifiers: normalized(after[j].modifiers) });
                    if j < i {
                        assert(before[j] == after[j]);
                    }
                }
                if egui_presses(before).contains(k) {
                    let j = choose|j: int| 0 <= j < before.len() && #[trigger] before[j].pressed
                        && k == (EguiInput { key: before[j].key, modifiers: normalized(before[j].modifiers) });
                    assert(before[j] == after[j]);
                }
                if event.pressed && pressed_input == k {
                    assert(after[i as int] == event);
                }
            }
            assert(input.egui_inputs() =~= old(input).egui_inputs() + egui_presses(after));
        }
        i = i + 1;
    }
    assert(events@.take(events.len() as int) == events@);
}

/// Starts a new frame: forgets the last frame's presses and records this
/// frame's terminal presses and, when an egui context exists, its egui presses.
pub fn update(
    terminal_events: &Vec<TerminalKeyEvent>,
    input: &mut InputState,
    egui_events: Option<&Vec<EguiKeyEvent>>,
)
    ensures
        final(input).well_formed(),
        final(input).terminal_keys() == terminal_presses(terminal_events@),
        final(input).egui_inputs() == match egui_events {
            Some(events) => egui_presses(events@),
            None => Set::<EguiInput>::empty(),
        },
{
    input.clear();
    update_terminal_input(terminal_events, input);
    assert(input.terminal_keys() =~= terminal_presses(terminal_events@));
    if let Some(events) = egui_events {
        update_egui_input(events, input);
        assert(input.egui_inputs() =~= egui_presses(events@));
    }
}

} // verus!
