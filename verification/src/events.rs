use vstd::prelude::*;

verus! {

/// No modifier key held.
pub const MOD_NONE: u8 = 0;

/// The Shift modifier bit (crossterm's `KeyModifiers::SHIFT`).
pub const MOD_SHIFT: u8 = 1;

/// The Control modifier bit (crossterm's `KeyModifiers::CONTROL`).
pub const MOD_CONTROL: u8 = 2;

/// The keys that the client tells apart; every other key is `Other`.
#[derive(Debug, Clone, Copy, PartialEq, Eq, Structural)]
pub enum Key {
    Char(char),
    Up,
    Down,
    Left,
    Right,
    Enter,
    Tab,
    Esc,
    Backspace,
    Other,
}

/// A key press: the key and the bits of the modifiers held with it.
#[derive(Debug, Clone, Copy, PartialEq, Eq, Structural)]
pub struct KeyPress {
    pub code: Key,
    pub modifiers: u8,
}

/// What reaches the client's loop: a key press, or the tick that elapses
/// when no key came in time.
#[derive(Debug, Clone, Copy, PartialEq, Eq, Structural)]
pub enum AppEvent {
    Key(KeyPress),
    Tick,
}

/// What the user asks for.
#[derive(Debug, Clone, Copy, PartialEq, Eq, Structural)]
pub enum Action {
    Quit,
    TogglePlay,
    Next,
    Previous,
    VolumeUp,
    VolumeDown,
    ToggleShuffle,
    ToggleRepeat,
    NavUp,
    NavDown,
    NavLeft,
    NavRight,
    Select,
    Search,
    Tab,
    Escape,
    Char(char),
    Backspace,
    Refresh,
}

/// The key bindings, tried in order: the first binding that matches wins.
/// A printable character bound to nothing else becomes `Char` when typed
/// alone or with Shift.
pub open spec fn binding(key: KeyPress) -> Option<Action> {
    match key.code {
        Key::Char(c) => {
            if c == 'q' {
                Some(Action::Quit)
            } else if c == 'c' && key.modifiers == MOD_CONTROL {
                Some(Action::Quit)
            } else if c == ' ' {
                Some(Action::TogglePlay)
            } else if c == 'n' || c == '>' {
                Some(Action::Next)
            } else if c == 'p' || c == '<' {
                Some(Action::Previous)
            } else if c == '+' || c == '=' {
                Some(Action::VolumeUp)
            } else if c == '-' {
                Some(Action::VolumeDown)
            } else if c == 's' {
                Some(Action::ToggleShuffle)
            } else if c == 'r' {
                Some(Action::ToggleRepeat)
            } else if c == 'j' {
                Some(Action::NavDown)
            } else if c == 'k' {
                Some(Action::NavUp)
            } else if c == 'h' {
                Some(Action::NavLeft)
            } else if c == 'l' {
                Some(Action::NavRight)
            } else if c == '/' {
                Some(Action::Search)
            } else if c == 'R' {
                Some(Action::Refresh)
            } else if key.modifiers == MOD_NONE || key.modifiers == MOD_SHIFT {
                Some(Action::Char(c))
            } else {
                None
            }
        },
        Key::Down => Some(Action::NavDown),
        Key::Up => Some(Action::NavUp),
        Key::Left => Some(Action::NavLeft),
        Key::Right => Some(Action::NavRight),
        Key::Enter => Some(Action::Select),
        Key::Tab => Some(Action::Tab),
        Key::Esc => Some(Action::Escape),
        Key::Backspace => Some(Action::Backspace),
        Key::Other => None,
    }
}

/// Maps a key press to the action it is bound to, if any.
pub fn key_to_action(key: &KeyPress) -> (r: Option<Action>)
    ensures
        r == binding(*key),
{
    match key.code {
        Key::Char(c) => {
            if c == 'q' {
                Some(Action::Quit)
            } else if c == 'c' && key.modifiers == MOD_CONTROL {
                Some(Action::Quit)
            } else if c == ' ' {
                Some(Action::TogglePlay)
            } else if c == 'n' || c == '>' {
                Some(Action::Next)
            } else if c == 'p' || c == '<' {
                Some(Action::Previous)
            } else if c == '+' || c == '=' {
                Some(Action::VolumeUp)
            } else if c == '-' {
                Some(Action::VolumeDown)
            } else if c == 's' {
                Some(Action::ToggleShuffle)
            } else if c == 'r' {
                Some(Action::ToggleRepeat)
            } else if c == 'j' {
                Some(Action::NavDown)
            } else if c == 'k' {
                Some(Action::NavUp)
            } else if c == 'h' {
                Some(Action::NavLeft)
            } else if c == 'l' {
                Some(Action::NavRight)
            } else if c == '/' {
                Some(Action::Search)
            } else if c == 'R' {
                Some(Action::Refresh)
            } else if key.modifiers == MOD_NONE || key.modifiers == MOD_SHIFT {
                Some(Action::Char(c))
            } else {
                None
            }
        },
        Key::Down => Some(Action::NavDown),
        Key::Up => Some(Action::NavUp),
        Key::Left => Some(Action::NavLeft),
        Key::Right => Some(Action::NavRight),
        Key::Enter => Some(Action::Select),
        Key::Tab => Some(Action::Tab),
        Key::Esc => Some(Action::Escape),
        Key::Backspace => Some(Action::Backspace),
        Key::Other => None,
    }
}

} // verus!
