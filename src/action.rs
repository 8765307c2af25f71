use vstd::prelude::*;

verus! {

/// Modifier bit for the shift key, as the terminal driver reports it.
pub const SHIFT: u8 = 1;

/// Modifier bit for the control key.
pub const CONTROL: u8 = 2;

/// Modifier bit for the alt key.
pub const ALT: u8 = 4;

/// The key that was pressed, independent of modifiers.
#[derive(Clone, Copy, Debug, PartialEq, Eq, Structural, Hash)]
pub enum KeyCode {
    Backspace,
    Enter,
    Left,
    Right,
    Up,
    Down,
    Home,
    End,
    PageUp,
    PageDown,
    Tab,
    BackTab,
    Delete,
    Insert,
    F(u8),
    Char(char),
    Null,
    Esc,
    /// Any key the dispatch core does not tell apart.
    Other,
}

/// One key press: its code and the set of held modifiers as a bit set.
#[derive(Clone, Copy, Debug, PartialEq, Eq, Structural, Hash)]
pub struct KeyPress {
    pub code: KeyCode,
    pub modifiers: u8,
}

pub open spec fn is_ascii_upper(c: char) -> bool {
    'A' <= c <= 'Z'
}

pub open spec fn is_ascii_lower(c: char) -> bool {
    'a' <= c <= 'z'
}

pub open spec fn ascii_upper(c: char) -> char {
    if is_ascii_lower(c) {
        ((c as u32) - 32) as char
    } else {
        c
    }
}

/// Whether the modifier set `m` holds shift (its lowest bit).
pub open spec fn has_shift(m: u8) -> bool {
    m % 2 == 1
}

/// The modifier set `m` with shift added.
pub open spec fn with_shift(m: u8) -> u8 {
    if has_shift(m) {
        m
    } else {
        (m + 1) as u8
    }
}

/// The canonical form of a key press under which two presses count as the
/// same key: an upper-case letter always carries shift, and a letter typed
/// with shift is upper case.
pub open spec fn normal_form(k: KeyPress) -> KeyPress {
    match k.code {
        KeyCode::Char(c) => if is_ascii_upper(c) {
            KeyPress { code: k.code, modifiers: with_shift(k.modifiers) }
        } else if has_shift(k.modifiers) {
            KeyPress { code: KeyCode::Char(ascii_upper(c)), modifiers: k.modifiers }
        } else {
            k
        },
        _ => k,
    }
}

impl KeyPress {
    /// A key press with no modifiers.
    pub fn plain(code: KeyCode) -> (r: KeyPress)
        ensures
            r.code == code,
            r.modifiers == 0,
    {
        KeyPress { code, modifiers: 0 }
    }

    /// The canonical form of this press (see `normal_form`).
    pub fn normalized(&self) -> (r: KeyPress)
        ensures
            r == normal_form(*self),
    {
        match self.code {
            KeyCode::Char(c) => {
                let shifted = self.modifiers % 2 == 1;
                if 'A' <= c && c <= 'Z' {
                    let modifiers = if shifted {
                        self.modifiers
                    } else {
                        self.modifiers + SHIFT
                    };
                    KeyPress { code: self.code, modifiers }
                } else if shifted {
                    if 'a' <= c && c <= 'z' {
                        let b: u8 = (c as u32 - 32) as u8;
                        KeyPress { code: KeyCode::Char(b as char), modifiers: self.modifiers }
                    } else {
                        *self
                    }
                } else {
                    *self
                }
            },
            _ => *self,
        }
    }
}

/// A typed command flowing through the action bus.
#[derive(Clone, Debug, PartialEq, Eq)]
pub enum Action {
    Tick,
    Render,
    Resize(u16, u16),
    Suspend,
    Resume,
    Quit,
    ClearScreen,
    Error(String),
    Key(KeyPress),
    VolumeUp,
    VolumeDown,
    Noop,
    Help,
    PressTab,
}

/// The variant tag of an `Action`, without its payload; used for filtering.
#[derive(Clone, Copy, Debug, PartialEq, Eq, Structural, Hash)]
pub enum ActionType {
    Tick,
    Render,
    Resize,
    Suspend,
    Resume,
    Quit,
    ClearScreen,
    Error,
    Key,
    VolumeUp,
    VolumeDown,
    Noop,
    Help,
    PressTab,
}

pub open spec fn action_kind(a: Action) -> ActionType {
    match a {
        Action::Tick => ActionType::Tick,
        Action::Render => ActionType::Render,
        Action::Resize(_, _) => ActionType::Resize,
        Action::Suspend => ActionType::Suspend,
        Action::Resume => ActionType::Resume,
        Action::Quit => ActionType::Quit,
        Action::ClearScreen => ActionType::ClearScreen,
        Action::Error(_) => ActionType::Error,
        Action::Key(_) => ActionType::Key,
        Action::VolumeUp => ActionType::VolumeUp,
        Action::VolumeDown => ActionType::VolumeDown,
        Action::Noop => ActionType::Noop,
        Action::Help => ActionType::Help,
        Action::PressTab => ActionType::PressTab,
    }
}

impl Action {
    /// The kind of this action.
    pub fn get_type(&self) -> (r: ActionType)
        ensures
            r == action_kind(*self),
    {
        match self {
            Action::Tick => ActionType::Tick,
            Action::Render => ActionType::Render,
            Action::Resize(_, _) => ActionType::Resize,
            Action::Suspend => ActionType::Suspend,
            Action::Resume => ActionType::Resume,
            Action::Quit => ActionType::Quit,
            Action::ClearScreen => ActionType::ClearScreen,
            Action::Error(_) => ActionType::Error,
            Action::Key(_) => ActionType::Key,
            Action::VolumeUp => ActionType::VolumeUp,
            Action::VolumeDown => ActionType::VolumeDown,
            Action::Noop => ActionType::Noop,
            Action::Help => ActionType::Help,
            Action::PressTab => ActionType::PressTab,
        }
    }

    /// An identical copy of this action.
    pub fn duplicate(&self) -> (r: Action)
        ensures
            r == *self,
    {
        match self {
            Action::Tick => Action::Tick,
            Action::Render => Action::Render,
            Action::Resize(w, h) => Action::Resize(*w, *h),
            Action::Suspend => Action::Suspend,
            Action::Resume => Action::Resume,
            Action::Quit => Action::Quit,
            Action::ClearScreen => Action::ClearScreen,
            Action::Error(m) => Action::Error(m.clone()),
            Action::Key(k) => Action::Key(*k),
            Action::VolumeUp => Action::VolumeUp,
            Action::VolumeDown => Action::VolumeDown,
            Action::Noop => Action::Noop,
            Action::Help => Action::Help,
            Action::PressTab => Action::PressTab,
        }
    }
}

/// A raw external signal from the event source.
#[derive(Clone, Copy, Debug, PartialEq, Eq, Structural)]
pub enum Event {
    Key(KeyPress),
    Resize(u16, u16),
    Tick,
    Render,
    Suspend,
    Resume,
    Quit,
    FocusChange(bool),
}

/// The variant tag of an `Event`.
#[derive(Clone, Copy, Debug, PartialEq, Eq, Structural, Hash)]
pub enum EventType {
    Key,
    Resize,
    Tick,
    Render,
    Suspend,
    Resume,
    Quit,
    FocusChange,
}

pub open spec fn event_kind(e: Event) -> EventType {
    match e {
        Event::Key(_) => EventType::Key,
        Event::Resize(_, _) => EventType::Resize,
        Event::Tick => EventType::Tick,
        Event::Render => EventType::Render,
        Event::Suspend => EventType::Suspend,
        Event::Resume => EventType::Resume,
        Event::Quit => EventType::Quit,
        Event::FocusChange(_) => EventType::FocusChange,
    }
}

impl Event {
    /// The kind of this event.
    pub fn get_type(&self) -> (r: EventType)
        ensures
            r == event_kind(*self),
    {
        match self {
            Event::Key(_) => EventType::Key,
            Event::Resize(_, _) => EventType::Resize,
            Event::Tick => EventType::Tick,
            Event::Render => EventType::Render,
            Event::Suspend => EventType::Suspend,
            Event::Resume => EventType::Resume,
            Event::Quit => EventType::Quit,
            Event::FocusChange(_) => EventType::FocusChange,
        }
    }
}

} // verus!
