//! The commands that a view understands, and the keys that give them.

use vstd::prelude::*;

verus! {

/// What the operator can ask of the dashboard.
#[derive(Clone, Copy, Debug, PartialEq, Eq, Structural)]
pub enum Command {
    SelectNext,
    SelectPrevious,
    CyclePaletteForward,
    CyclePaletteBackward,
    DrillDown,
    Back,
    Quit,
}

/// A key press, as far as the dashboard tells keys apart.
#[derive(Clone, Copy, Debug, PartialEq, Eq, Structural)]
pub enum Key {
    Char(char),
    Up,
    Down,
    Enter,
    Esc,
    Other,
}

/// The command that `key` gives, if it gives one: `q` quits, `j` and the down
/// arrow select the next row, `k` and the up arrow the previous one, `c` in
/// either case changes the theme, Enter drills down and Esc goes back.
pub open spec fn spec_command_for_key(key: Key) -> Option<Command> {
    match key {
        Key::Char(c) => if c == 'q' {
            Some(Command::Quit)
        } else if c == 'j' {
            Some(Command::SelectNext)
        } else if c == 'k' {
            Some(Command::SelectPrevious)
        } else if c == 'c' || c == 'C' {
            Some(Command::CyclePaletteForward)
        } else {
            None
        },
        Key::Down => Some(Command::SelectNext),
        Key::Up => Some(Command::SelectPrevious),
        Key::Enter => Some(Command::DrillDown),
        Key::Esc => Some(Command::Back),
        Key::Other => None,
    }
}

/// The command that `key` gives; `None` for a key that gives none.
pub fn command_for_key(key: Key) -> (command: Option<Command>)
    ensures
        command == spec_command_for_key(key),
{
    match key {
        Key::Char('q') => Some(Command::Quit),
        Key::Char('j') | Key::Down => Some(Command::SelectNext),
        Key::Char('k') | Key::Up => Some(Command::SelectPrevious),
        Key::Char('c' | 'C') => Some(Command::CyclePaletteForward),
        Key::Enter => Some(Command::DrillDown),
        Key::Esc => Some(Command::Back),
        _ => None,
    }
}

} // verus!
