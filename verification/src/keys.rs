//! Key presses as plain values, and what each one asks the editor to do.

use crate::cursor::Direction;
use vstd::prelude::*;

verus! {

/// No modifier key is held.
pub const MODIFIERS_NONE: u8 = 0;

/// The bit of a modifier set that stands for Shift.
pub const MODIFIERS_SHIFT: u8 = 1;

/// The bit of a modifier set that stands for Control.
pub const MODIFIERS_CONTROL: u8 = 2;

/// The bit of a modifier set that stands for Alt.
pub const MODIFIERS_ALT: u8 = 4;

/// No extra keyboard state came with the event.
pub const STATE_NONE: u8 = 0;

/// The character that, pressed together with Control, ends the session.
pub const KEY_QUIT: char = 'c';

/// Which key an event is about.
#[derive(Clone, Copy, Debug, PartialEq, Eq, Structural)]
pub enum KeyCode {
    Backspace,
    Enter,
    Left,
    Right,
    Up,
    Down,
    Home,
    End,
    PageUp,
    PageDown,
    Tab,
    BackTab,
    Delete,
    Insert,
    F(u8),
    Char(char),
    Null,
    Esc,
    /// Any key the editor has no name for.
    Other,
}

/// What happened to the key.
#[derive(Clone, Copy, Debug, PartialEq, Eq, Structural)]
pub enum KeyEventKind {
    Press,
    Repeat,
    Release,
}

/// One key event: the key, the set of modifier keys held with it, what
/// happened to it, and the set of extra keyboard state flags that came along.
#[derive(Clone, Copy, Debug, PartialEq, Eq, Structural)]
pub struct KeyEvent {
    pub code: KeyCode,
    pub modifiers: u8,
    pub kind: KeyEventKind,
    pub state: u8,
}

/// What a key event asks the editor to do.
#[derive(Clone, Copy, Debug, PartialEq, Eq, Structural)]
pub enum KeyAction {
    /// End the session.
    Quit,
    /// Move the cursor one step.
    Move(Direction),
    /// Nothing at all.
    Ignore,
}

/// The direction a key stands for, if it stands for one. The six movement
/// keys stand for the direction of the same name; no other key, and no
/// character, stands for any.
pub open spec fn direction_of(code: KeyCode) -> Option<Direction> {
    match code {
        KeyCode::Left => Some(Direction::Left),
        KeyCode::Right => Some(Direction::Right),
        KeyCode::Up => Some(Direction::Up),
        KeyCode::Down => Some(Direction::Down),
        KeyCode::Home => Some(Direction::Home),
        KeyCode::End => Some(Direction::End),
        _ => None,
    }
}

/// The key is one of the six movement keys.
pub open spec fn is_movement_key(code: KeyCode) -> bool {
    code == KeyCode::Left || code == KeyCode::Right || code == KeyCode::Up || code
        == KeyCode::Down || code == KeyCode::Home || code == KeyCode::End
}

/// The event is a plain press: no modifier held, no extra state set.
pub open spec fn is_plain_press(event: KeyEvent) -> bool {
    event.modifiers == MODIFIERS_NONE && event.kind == KeyEventKind::Press && event.state
        == STATE_NONE
}

/// The event is the one that ends the session: the quit character pressed
/// with Control and nothing else.
pub open spec fn is_quit(event: KeyEvent) -> bool {
    event.code == KeyCode::Char(KEY_QUIT) && event.modifiers == MODIFIERS_CONTROL && event.kind
        == KeyEventKind::Press && event.state == STATE_NONE
}

/// What an event asks for. Only the quit event and plain presses of movement
/// keys ask for anything.
pub open spec fn action_of(event: KeyEvent) -> KeyAction {
    if is_quit(event) {
        KeyAction::Quit
    } else if is_plain_press(event) && direction_of(event.code) is Some {
        KeyAction::Move(direction_of(event.code)->0)
    } else {
        KeyAction::Ignore
    }
}

/// Looks up the direction a key stands for.
pub fn direction_for(code: KeyCode) -> (direction: Option<Direction>)
    ensures
        direction == direction_of(code),
{
    if code == KeyCode::Left {
        Some(Direction::Left)
    } else if code == KeyCode::Right {
        Some(Direction::Right)
    } else if code == KeyCode::Up {
        Some(Direction::Up)
    } else if code == KeyCode::Down {
        Some(Direction::Down)
    } else if code == KeyCode::Home {
        Some(Direction::Home)
    } else if code == KeyCode::End {
        Some(Direction::End)
    } else {
        None
    }
}

/// Decides what an event asks the editor to do.
pub fn classify(event: &KeyEvent) -> (action: KeyAction)
    ensures
        action == action_of(*event),
{
    let pressed = match event.kind {
        KeyEventKind::Press => true,
        _ => false,
    };
    if !pressed || event.state != STATE_NONE {
        return KeyAction::Ignore;
    }
    if event.modifiers == MODIFIERS_CONTROL {
        match event.code {
            KeyCode::Char(ch) => {
                if ch == KEY_QUIT {
                    KeyAction::Quit
                } else {
                    KeyAction::Ignore
                }
            },
            _ => KeyAction::Ignore,
        }
    } else if event.modifiers == MODIFIERS_NONE {
        match direction_for(event.code) {
            Some(direction) => KeyAction::Move(direction),
            None => KeyAction::Ignore,
        }
    } else {
        KeyAction::Ignore
    }
}

/// Exactly one event asks for the session to end: the quit character pressed
/// together with Control, with no other modifier and no extra state.
pub proof fn lemma_quit_is_exact(event: KeyEvent)
    ensures
        action_of(event) == KeyAction::Quit <==> event == (KeyEvent {
            code: KeyCode::Char('c'),
            modifiers: 2,
            kind: KeyEventKind::Press,
            state: 0,
        }),
{
}

/// A key stands for a direction exactly when it is one of the six movement
/// keys. In particular no character does, whichever it is.
pub proof fn lemma_only_movement_keys_have_directions(code: KeyCode)
    ensures
        direction_of(code) is Some <==> is_movement_key(code),
        code is Char ==> direction_of(code) is None,
{
}

/// An event that is neither the quit event nor a plain press of a movement
/// key asks for nothing.
pub proof fn lemma_everything_else_is_ignored(event: KeyEvent)
    ensures
        action_of(event) == KeyAction::Ignore <==> !is_quit(event) && !(is_plain_press(event)
            && is_movement_key(event.code)),
        action_of(event) is Move <==> is_plain_press(event) && is_movement_key(event.code),
{
}

} // verus!
