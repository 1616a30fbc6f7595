//! Keys and what they are bound to.
use crossterm::event::KeyCode;
use crossterm::event::KeyEvent;
use vstd::prelude::*;

verus! {

/// A key as the grid reads it.
#[derive(Clone, Copy, Debug, PartialEq, Eq)]
pub enum Key {
    Left,
    Right,
    Up,
    Down,
    Enter,
    Esc,
    Char(char),
    /// Any key that has no meaning here.
    Other,
}

/// A direction in which the selection moves.
#[derive(Clone, Copy, Debug, PartialEq, Eq)]
pub enum Motion {
    Left,
    Right,
    Up,
    Down,
}

/// What a key asks for.
#[derive(Clone, Copy, Debug, PartialEq, Eq)]
pub enum Command {
    /// Move the selection by one cell.
    Move(Motion),
    /// Append a row to the view.
    Insert,
    /// Open the selected link, or start editing the selected text.
    Activate,
    /// Leave edit mode and save the edit.
    Commit,
    /// Return from a drill-down to its parent.
    Back,
}

/// The binding of `key`. While a cell is being edited every key but the one
/// that commits belongs to the editor; otherwise the arrows and `h`, `j`,
/// `k`, `l` move, `n` inserts, Enter activates and Esc goes back.
pub open spec fn binding(key: Key, editing: bool) -> Option<Command> {
    if editing {
        match key {
            Key::Esc => Some(Command::Commit),
            _ => None,
        }
    } else {
        match key {
            Key::Left => Some(Command::Move(Motion::Left)),
            Key::Right => Some(Command::Move(Motion::Right)),
            Key::Up => Some(Command::Move(Motion::Up)),
            Key::Down => Some(Command::Move(Motion::Down)),
            Key::Enter => Some(Command::Activate),
            Key::Esc => Some(Command::Back),
            Key::Char(c) => if c == 'h' {
                Some(Command::Move(Motion::Left))
            } else if c == 'l' {
                Some(Command::Move(Motion::Right))
            } else if c == 'k' {
                Some(Command::Move(Motion::Up))
            } else if c == 'j' {
                Some(Command::Move(Motion::Down))
            } else if c == 'n' {
                Some(Command::Insert)
            } else {
                None
            },
            Key::Other => None,
        }
    }
}

/// Looks `key` up in the bindings.
pub fn command(key: Key, editing: bool) -> (found: Option<Command>)
    ensures
        found == binding(key, editing),
{
    if editing {
        match key {
            Key::Esc => Some(Command::Commit),
            _ => None,
        }
    } else {
        match key {
            Key::Left => Some(Command::Move(Motion::Left)),
            Key::Right => Some(Command::Move(Motion::Right)),
            Key::Up => Some(Command::Move(Motion::Up)),
            Key::Down => Some(Command::Move(Motion::Down)),
            Key::Enter => Some(Command::Activate),
            Key::Esc => Some(Command::Back),
            Key::Char(c) => match c {
                'h' => Some(Command::Move(Motion::Left)),
                'l' => Some(Command::Move(Motion::Right)),
                'k' => Some(Command::Move(Motion::Up)),
                'j' => Some(Command::Move(Motion::Down)),
                'n' => Some(Command::Insert),
                _ => None,
            },
            Key::Other => None,
        }
    }
}

#[verifier::external_type_specification]
#[verifier::external_body]
pub struct ExKeyEvent(KeyEvent);

/// The key that a key event of the terminal is read as: what [`key_of`]
/// makes of the event. It depends on the event alone.
pub uninterp spec fn event_key(event: KeyEvent) -> Key;

/// Reads the `code` of a `crossterm::event::KeyEvent` and names its
/// `KeyCode` variant as a [`Key`]: the four arrows, Enter, Esc and `Char`
/// with its character each become the variant of the same name, every
/// other code becomes `Other`. Modifiers and the kind of event are not
/// read. The claim is that the result is the same for the same event;
/// which key it is for which event is not claimed.
#[verifier::external_body]
pub(crate) fn key_of(event: &KeyEvent) -> (key: Key)
    ensures
        key == event_key(*event),
{
    match event.code {
        KeyCode::Left => Key::Left,
        KeyCode::Right => Key::Right,
        KeyCode::Up => Key::Up,
        KeyCode::Down => Key::Down,
        KeyCode::Enter => Key::Enter,
        KeyCode::Esc => Key::Esc,
        KeyCode::Char(c) => Key::Char(c),
        _ => Key::Other,
    }
}

} // verus!
