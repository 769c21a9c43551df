//! Key input and its translation into commands.
//!
//! The viewer is driven by abstract key events: a key identifier plus
//! modifier flags. `decode` maps each such event to exactly one command,
//! keeping the rest of the crate independent of any terminal library's
//! event vocabulary. Keys with no mapping decode to `Command::Noop`.
use vstd::prelude::*;

verus! {

/// A key identifier: a printable character or a named key.
///
/// `Other` stands for any key outside this vocabulary; it always decodes
/// to `Command::Noop`.
#[derive(Clone, Copy, PartialEq, Eq, Structural, Debug)]
pub enum Key {
    Char(char),
    Left,
    Right,
    Up,
    Down,
    Home,
    End,
    PageUp,
    PageDown,
    Tab,
    Enter,
    Esc,
    Other,
}

/// One raw key event: the key plus modifier flags.
#[derive(Clone, Copy, PartialEq, Eq, Structural, Debug)]
pub struct KeyInput {
    pub key: Key,
    pub ctrl: bool,
    pub alt: bool,
    pub shift: bool,
}

/// A cursor motion on a text buffer. Every motion clamps at the buffer's
/// edges: there is no wraparound and no error on hitting an edge.
#[derive(Clone, Copy, PartialEq, Eq, Structural, Debug)]
pub enum CursorMove {
    /// One character back within the line.
    Back,
    /// One character forward within the line.
    Forward,
    /// One line up.
    Up,
    /// One line down.
    Down,
    /// To the start of the next whitespace-delimited word, or line end.
    WordForward,
    /// To the start of the current or previous whitespace-delimited word.
    WordBack,
    /// To column 0 of the current line.
    Head,
    /// To the end of the current line.
    End,
    /// To the first line.
    Top,
    /// To the last line.
    Bottom,
}

/// A viewport motion. Scrolling moves the viewport only and never the
/// cursor; the cursor may leave the visible area.
#[derive(Clone, Copy, PartialEq, Eq, Structural, Debug)]
pub enum Scrolling {
    /// A signed (rows, columns) offset, clamped to the buffer's extent.
    Delta(i32, i32),
    HalfPageUp,
    HalfPageDown,
    PageUp,
    PageDown,
}

/// A navigation command addressed to one pane: either a cursor motion,
/// which keeps the cursor visible, or a viewport scroll, which leaves the
/// cursor in place.
#[derive(Clone, Copy, PartialEq, Eq, Structural, Debug)]
pub enum NavCommand {
    Move(CursorMove),
    Scroll(Scrolling),
}

/// The closed set of commands the viewer understands.
#[derive(Clone, Copy, PartialEq, Eq, Structural, Debug)]
pub enum Command {
    /// Leave the viewer.
    Quit,
    /// Make the next pane (cyclically) the active one.
    SwitchFocusNext,
    /// Forward a navigation command to the active pane.
    Pane(NavCommand),
    /// A key with no mapping: do nothing.
    Noop,
}

/// The key mapping, as a function: `q`/`Esc` quit, `Tab` switches focus,
/// `h j k l`/arrows move the cursor, `w`/`b` move by words, `^`/`$` jump
/// within the line, `g`/`G`/Home/End jump within the buffer, and the
/// control-key combinations with PageUp/PageDown/Space/Enter scroll the
/// viewport. Every unmapped key yields `Noop`.
///
/// Only the control flag takes part in the mapping; `alt` and `shift` are
/// ignored, matching a terminal where case already arrives in the
/// character itself.
pub open spec fn spec_decode(input: KeyInput) -> Command {
    match input.key {
        Key::Char('q') => Command::Quit,
        Key::Esc => Command::Quit,
        Key::Tab => Command::SwitchFocusNext,
        Key::Char('h') => Command::Pane(NavCommand::Move(CursorMove::Back)),
        Key::Left => Command::Pane(NavCommand::Move(CursorMove::Back)),
        Key::Char('j') => Command::Pane(NavCommand::Move(CursorMove::Down)),
        Key::Down => Command::Pane(NavCommand::Move(CursorMove::Down)),
        Key::Char('k') => Command::Pane(NavCommand::Move(CursorMove::Up)),
        Key::Up => Command::Pane(NavCommand::Move(CursorMove::Up)),
        Key::Char('l') => Command::Pane(NavCommand::Move(CursorMove::Forward)),
        Key::Right => Command::Pane(NavCommand::Move(CursorMove::Forward)),
        Key::Char('w') => Command::Pane(NavCommand::Move(CursorMove::WordForward)),
        Key::Char('b') => if input.ctrl {
            Command::Pane(NavCommand::Scroll(Scrolling::PageUp))
        } else {
            Command::Pane(NavCommand::Move(CursorMove::WordBack))
        },
        Key::Char('^') => Command::Pane(NavCommand::Move(CursorMove::Head)),
        Key::Char('$') => Command::Pane(NavCommand::Move(CursorMove::End)),
        Key::Char('g') => if input.ctrl {
            Command::Noop
        } else {
            Command::Pane(NavCommand::Move(CursorMove::Top))
        },
        Key::Home => Command::Pane(NavCommand::Move(CursorMove::Top)),
        Key::Char('G') => if input.ctrl {
            Command::Noop
        } else {
            Command::Pane(NavCommand::Move(CursorMove::Bottom))
        },
        Key::End => Command::Pane(NavCommand::Move(CursorMove::Bottom)),
        Key::Char('e') => if input.ctrl {
            Command::Pane(NavCommand::Scroll(Scrolling::Delta(1i32, 0i32)))
        } else {
            Command::Noop
        },
        Key::Char('y') => if input.ctrl {
            Command::Pane(NavCommand::Scroll(Scrolling::Delta(-1i32, 0i32)))
        } else {
            Command::Noop
        },
        Key::Char('d') => if input.ctrl {
            Command::Pane(NavCommand::Scroll(Scrolling::HalfPageDown))
        } else {
            Command::Noop
        },
        Key::Char('u') => if input.ctrl {
            Command::Pane(NavCommand::Scroll(Scrolling::HalfPageUp))
        } else {
            Command::Noop
        },
        Key::PageUp => Command::Pane(NavCommand::Scroll(Scrolling::PageUp)),
        Key::Char(' ') => Command::Pane(NavCommand::Scroll(Scrolling::PageDown)),
        Key::Enter => Command::Pane(NavCommand::Scroll(Scrolling::PageDown)),
        Key::Char('f') => if input.ctrl {
            Command::Pane(NavCommand::Scroll(Scrolling::PageDown))
        } else {
            Command::Noop
        },
        Key::PageDown => Command::Pane(NavCommand::Scroll(Scrolling::PageDown)),
        Key::Char(_) => Command::Noop,
        Key::Other => Command::Noop,
    }
}

/// Decode one key event into a command: the total, deterministic mapping
/// given by [`spec_decode`].
pub fn decode(input: KeyInput) -> (cmd: Command)
    ensures
        cmd == spec_decode(input),
{
    match input.key {
        Key::Esc => Command::Quit,
        Key::Tab => Command::SwitchFocusNext,
        Key::Left => Command::Pane(NavCommand::Move(CursorMove::Back)),
        Key::Down => Command::Pane(NavCommand::Move(CursorMove::Down)),
        Key::Up => Command::Pane(NavCommand::Move(CursorMove::Up)),
        Key::Right => Command::Pane(NavCommand::Move(CursorMove::Forward)),
        Key::Home => Command::Pane(NavCommand::Move(CursorMove::Top)),
        Key::End => Command::Pane(NavCommand::Move(CursorMove::Bottom)),
        Key::PageUp => Command::Pane(NavCommand::Scroll(Scrolling::PageUp)),
        Key::Enter => Command::Pane(NavCommand::Scroll(Scrolling::PageDown)),
        Key::PageDown => Command::Pane(NavCommand::Scroll(Scrolling::PageDown)),
        Key::Other => Command::Noop,
        Key::Char(c) => {
            if c == 'q' {
                Command::Quit
            } else if c == 'h' {
                Command::Pane(NavCommand::Move(CursorMove::Back))
            } else if c == 'j' {
                Command::Pane(NavCommand::Move(CursorMove::Down))
            } else if c == 'k' {
                Command::Pane(NavCommand::Move(CursorMove::Up))
            } else if c == 'l' {
                Command::Pane(NavCommand::Move(CursorMove::Forward))
            } else if c == 'w' {
                Command::Pane(NavCommand::Move(CursorMove::WordForward))
            } else if c == 'b' {
                if input.ctrl {
                    Command::Pane(NavCommand::Scroll(Scrolling::PageUp))
                } else {
                    Command::Pane(NavCommand::Move(CursorMove::WordBack))
                }
            } else if c == '^' {
                Command::Pane(NavCommand::Move(CursorMove::Head))
            } else if c == '$' {
                Command::Pane(NavCommand::Move(CursorMove::End))
            } else if c == 'g' {
                if input.ctrl {
                    Command::Noop
                } else {
                    Command::Pane(NavCommand::Move(CursorMove::Top))
                }
            } else if c == 'G' {
                if input.ctrl {
                    Command::Noop
                } else {
                    Command::Pane(NavCommand::Move(CursorMove::Bottom))
                }
            } else if c == 'e' {
                if input.ctrl {
                    Command::Pane(NavCommand::Scroll(Scrolling::Delta(1i32, 0i32)))
                } else {
                    Command::Noop
                }
            } else if c == 'y' {
                if input.ctrl {
                    Command::Pane(NavCommand::Scroll(Scrolling::Delta(-1i32, 0i32)))
                } else {
                    Command::Noop
                }
            } else if c == 'd' {
                if input.ctrl {
                    Command::Pane(NavCommand::Scroll(Scrolling::HalfPageDown))
                } else {
                    Command::Noop
                }
            } else if c == 'u' {
                if input.ctrl {
                    Command::Pane(NavCommand::Scroll(Scrolling::HalfPageUp))
                } else {
                    Command::Noop
                }
            } else if c == ' ' {
                Command::Pane(NavCommand::Scroll(Scrolling::PageDown))
            } else if c == 'f' {
                if input.ctrl {
                    Command::Pane(NavCommand::Scroll(Scrolling::PageDown))
                } else {
                    Command::Noop
                }
            } else {
                Command::Noop
            }
        },
    }
}

} // verus!
