use vstd::prelude::*;

verus! {

/// The modifier keys of a key event, one bit each.
pub const SHIFT: u8 = 1;

pub const CONTROL: u8 = 2;

pub const ALT: u8 = 4;

pub const SUPER: u8 = 8;

pub const HYPER: u8 = 16;

pub const META: u8 = 32;

/// Where a key event comes from and which locks were on, one bit each.
pub const KEYPAD: u8 = 1;

pub const CAPS_LOCK: u8 = 2;

pub const NUM_LOCK: u8 = 4;

/// A media key.
#[derive(Debug, Clone, Copy, PartialEq, Eq, Structural)]
pub enum MediaKeyCode {
    Play,
    Pause,
    PlayPause,
    Reverse,
    Stop,
    FastForward,
    Rewind,
    TrackNext,
    TrackPrevious,
    Record,
    LowerVolume,
    RaiseVolume,
    MuteVolume,
}

/// A modifier key, pressed by itself.
#[derive(Debug, Clone, Copy, PartialEq, Eq, Structural)]
pub enum ModifierKeyCode {
    LeftShift,
    LeftControl,
    LeftAlt,
    LeftSuper,
    LeftHyper,
    LeftMeta,
    RightShift,
    RightControl,
    RightAlt,
    RightSuper,
    RightHyper,
    RightMeta,
    IsoLevel3Shift,
    IsoLevel5Shift,
}

/// The key of a key event.
#[derive(Debug, Clone, Copy, PartialEq, Eq, Structural)]
pub enum KeyCode {
    Backspace,
    Enter,
    Left,
    Right,
    Up,
    Down,
    Home,
    End,
    PageUp,
    PageDown,
    Tab,
    BackTab,
    Delete,
    Insert,
    F(u8),
    Char(char),
    Null,
    Esc,
    CapsLock,
    ScrollLock,
    NumLock,
    PrintScreen,
    Pause,
    Menu,
    KeypadBegin,
    Media(MediaKeyCode),
    Modifier(ModifierKeyCode),
}

/// Whether a key went down, is held, or came up.
#[derive(Debug, Clone, Copy, PartialEq, Eq, Structural)]
pub enum KeyEventKind {
    Press,
    Repeat,
    Release,
}

/// One decoded event of the keyboard.
#[derive(Debug, Clone, Copy, PartialEq, Eq, Structural)]
pub struct KeyEvent {
    pub code: KeyCode,
    /// The modifier keys held, as the sum of their bits.
    pub modifiers: u8,
    pub kind: KeyEventKind,
    /// Where the event comes from and which locks were on, as the sum of
    /// their bits.
    pub state: u8,
}

/// What a key press asks of the picker.
#[derive(Debug, Clone, Copy, PartialEq, Eq, Structural)]
pub enum Action {
    Select,
    ExitWithoutSelect,
    Up,
    Down,
    Input,
}

/// The default key bindings: Enter commits; Esc, Ctrl-C and Ctrl-D cancel;
/// the arrows, Ctrl-K and Ctrl-J move the selection; every other key goes to
/// the query editor.
pub open spec fn sample_binding(key: KeyEvent) -> Action {
    match key.code {
        KeyCode::Enter => Action::Select,
        KeyCode::Esc => Action::ExitWithoutSelect,
        KeyCode::Up => Action::Up,
        KeyCode::Down => Action::Down,
        KeyCode::Char(c) => if key.modifiers != CONTROL {
            Action::Input
        } else if c == 'c' || c == 'd' {
            Action::ExitWithoutSelect
        } else if c == 'k' {
            Action::Up
        } else if c == 'j' {
            Action::Down
        } else {
            Action::Input
        },
        _ => Action::Input,
    }
}

pub fn sample_keyconfig(key: &KeyEvent) -> (action: Action)
    ensures
        action == sample_binding(*key),
{
    match (key.code, key.modifiers) {
        (KeyCode::Enter, _) => Action::Select,
        (KeyCode::Char('c'), CONTROL) | (KeyCode::Char('d'), CONTROL) | (KeyCode::Esc, _) => {
            Action::ExitWithoutSelect
        },
        (KeyCode::Up, _) | (KeyCode::Char('k'), CONTROL) => Action::Up,
        (KeyCode::Down, _) | (KeyCode::Char('j'), CONTROL) => Action::Down,
        _ => Action::Input,
    }
}

/// A key event as the event loop is to see it: presses are passed on, repeats
/// and releases are dropped.
pub fn forwarded(key: KeyEvent) -> (event: Option<Event>)
    ensures
        event == if key.kind == KeyEventKind::Press {
            Some(Event::Key(key))
        } else {
            None
        },
{
    match key.kind {
        KeyEventKind::Press => Some(Event::Key(key)),
        _ => None,
    }
}

/// What the event loop is woken by, besides a finished pull.
#[derive(Debug, Clone, Copy, PartialEq, Eq, Structural)]
pub enum Event {
    /// A key event from the terminal.
    Key(KeyEvent),
    /// The display buffer has changed and is to be drawn again.
    Refresh,
    /// The query text has changed.
    Input,
}

} // verus!
