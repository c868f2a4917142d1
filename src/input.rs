//! Key bindings: which key does what, and which keys are scroll input.
use vstd::prelude::*;

verus! {

/// The key of a key event.
#[derive(Clone, Copy, Debug, PartialEq, Eq, Structural)]
pub enum Key {
    Up,
    Down,
    Enter,
    Esc,
    Char(char),
    /// Any other key.
    Other,
}

/// A key event, as plain values.
#[derive(Clone, Copy, Debug, PartialEq, Eq, Structural)]
pub struct KeyInput {
    pub key: Key,
    pub shift: bool,
    pub control: bool,
    /// Any modifier besides Shift and Control.
    pub other_modifier: bool,
    /// A press, as opposed to a repeat or a release.
    pub press: bool,
}

/// What the user asked for.
#[derive(Clone, Copy, Debug, PartialEq, Eq, Structural)]
pub enum Command {
    /// Move by a signed number of rows or lines; `isize::MIN` jumps to the first and
    /// `isize::MAX` to the last.
    Scroll(isize),
    /// Open the detail view of the selected entry.
    Expand,
    /// Close the detail view, or quit where there is none.
    Close,
    /// Open the selected entry's link in the default application.
    Open,
    /// Quit at once.
    Exit,
}

/// Only Shift is held.
pub open spec fn only_shift(k: KeyInput) -> bool {
    k.shift && !k.control && !k.other_modifier
}

/// Only Control is held.
pub open spec fn only_control(k: KeyInput) -> bool {
    !k.shift && k.control && !k.other_modifier
}

/// The key bindings, first match wins: Up or `k` scrolls up one, Down or `j` down
/// one, `g` to the top, Shift+`G` to the bottom, Enter expands, `q` closes, `o`
/// opens, Control+`d` exits. Only presses count.
pub open spec fn bound_command(k: KeyInput) -> Option<Command> {
    if !k.press {
        None
    } else {
        match k.key {
            Key::Up => Some(Command::Scroll(-1isize)),
            Key::Char('k') => Some(Command::Scroll(-1isize)),
            Key::Down => Some(Command::Scroll(1isize)),
            Key::Char('j') => Some(Command::Scroll(1isize)),
            Key::Char('g') => Some(Command::Scroll(isize::MIN)),
            Key::Char('G') => if only_shift(k) {
                Some(Command::Scroll(isize::MAX))
            } else {
                None
            },
            Key::Enter => Some(Command::Expand),
            Key::Char('q') => Some(Command::Close),
            Key::Char('o') => Some(Command::Open),
            Key::Char('d') => if only_control(k) {
                Some(Command::Exit)
            } else {
                None
            },
            _ => None,
        }
    }
}

/// Maps a key event to the command bound to it.
pub fn command_for_key(k: &KeyInput) -> (r: Option<Command>)
    ensures
        r == bound_command(*k),
{
    if !k.press {
        return None;
    }
    let only_shift = k.shift && !k.control && !k.other_modifier;
    let only_control = !k.shift && k.control && !k.other_modifier;
    match k.key {
        Key::Up => Some(Command::Scroll(-1)),
        Key::Down => Some(Command::Scroll(1)),
        Key::Enter => Some(Command::Expand),
        Key::Char(c) => {
            if c == 'k' {
                Some(Command::Scroll(-1))
            } else if c == 'j' {
                Some(Command::Scroll(1))
            } else if c == 'g' {
                Some(Command::Scroll(isize::MIN))
            } else if c == 'G' && only_shift {
                Some(Command::Scroll(isize::MAX))
            } else if c == 'q' {
                Some(Command::Close)
            } else if c == 'o' {
                Some(Command::Open)
            } else if c == 'd' && only_control {
                Some(Command::Exit)
            } else {
                None
            }
        },
        _ => None,
    }
}

/// Scroll input comes in bursts (a mouse wheel reaches the terminal as arrow keys):
/// Up and Down events are coalesced, whatever their modifiers or kind.
pub open spec fn coalescable(k: KeyInput) -> bool {
    k.key == Key::Up || k.key == Key::Down
}

/// Whether a key event belongs to the coalesced class.
pub fn is_coalescable(k: &KeyInput) -> (r: bool)
    ensures
        r == coalescable(*k),
{
    match k.key {
        Key::Up => true,
        Key::Down => true,
        _ => false,
    }
}

} // verus!
