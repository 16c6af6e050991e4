//! The event bus: what the application can be told, and what each source
//! of events puts on the bus.
//!
//! Two timers and the terminal feed the bus from one task; the diff worker
//! adds its results. Waiting on the sources is the caller's part.

use vstd::prelude::*;
use crate::git::types::GitResultPayload;

verus! {

/// The key of a key event.
#[derive(Debug, Clone, Copy, PartialEq, Eq, Structural)]
pub enum KeyCode {
    /// A character key.
    Char(char),
    Enter,
    Esc,
    Tab,
    /// Any other key.
    Other,
}

/// Whether a key went down, is held, or came up.
#[derive(Debug, Clone, Copy, PartialEq, Eq, Structural)]
pub enum KeyKind {
    Press,
    Repeat,
    Release,
}

/// A key event of the terminal.
#[derive(Debug, Clone, Copy, PartialEq, Eq, Structural)]
pub struct KeyInput {
    pub code: KeyCode,
    /// Whether the control key was held.
    pub control: bool,
    pub kind: KeyKind,
}

/// What a mouse event reports.
#[derive(Debug, Clone, Copy, PartialEq, Eq, Structural)]
pub enum MouseKind {
    /// The left button went down.
    LeftDown,
    ScrollUp,
    ScrollDown,
    /// Anything else: other buttons, movement, releases.
    Other,
}

/// A mouse event of the terminal.
#[derive(Debug, Clone, Copy, PartialEq, Eq, Structural)]
pub struct MouseInput {
    pub kind: MouseKind,
    pub column: u16,
    pub row: u16,
}

/// What the terminal reports.
#[derive(Debug, Clone, Copy, PartialEq, Eq, Structural)]
pub enum TerminalEvent {
    Key(KeyInput),
    Mouse(MouseInput),
    /// The terminal now has this many columns and rows.
    Resize(u16, u16),
    /// Anything else: focus changes, pastes.
    Other,
}

/// Everything the application can be told.
#[derive(Debug)]
#[non_exhaustive]
pub enum AppEvent {
    /// A key was pressed.
    Key(KeyInput),
    /// The mouse clicked, scrolled or moved.
    Mouse(MouseInput),
    /// The terminal was resized to this many columns and rows.
    Resize(u16, u16),
    /// Time to advance the logic state.
    Tick,
    /// Time to redraw.
    Render,
    /// A watched file changed on disk.
    FileChanged,
    /// The diff worker finished a request.
    GitResult(Box<GitResultPayload>),
    /// The database finished a task.
    DbResult,
    /// The application is asked to quit.
    Quit,
}

/// Which source of the event task became ready.
#[derive(Debug, Clone, Copy, PartialEq, Eq, Structural)]
pub enum Ready {
    /// The slower timer, which paces the logic.
    LogicTimer,
    /// The fast timer, which paces the redraws.
    RenderTimer,
    /// The terminal, with what it reported; `None` if it reported an error
    /// or has ended.
    Terminal(Option<TerminalEvent>),
}

/// The event that a ready source puts on the bus, if any.
///
/// Each timer gives its own event. Of the keys only presses are passed on,
/// so that a terminal which also reports releases does not fire twice.
/// Mouse events and resizes are passed on as they are; nothing else is.
pub open spec fn event_of(ready: Ready) -> Option<AppEvent> {
    match ready {
        Ready::LogicTimer => Some(AppEvent::Tick),
        Ready::RenderTimer => Some(AppEvent::Render),
        Ready::Terminal(Some(TerminalEvent::Key(key))) => if key.kind == KeyKind::Press {
            Some(AppEvent::Key(key))
        } else {
            None
        },
        Ready::Terminal(Some(TerminalEvent::Resize(columns, rows))) => Some(
            AppEvent::Resize(columns, rows),
        ),
        Ready::Terminal(Some(TerminalEvent::Mouse(mouse))) => Some(AppEvent::Mouse(mouse)),
        Ready::Terminal(_) => None,
    }
}

/// The event that a ready source puts on the bus, if any.
pub fn event_for(ready: Ready) -> (r: Option<AppEvent>)
    ensures
        r == event_of(ready),
{
    match ready {
        Ready::LogicTimer => Some(AppEvent::Tick),
        Ready::RenderTimer => Some(AppEvent::Render),
        Ready::Terminal(Some(TerminalEvent::Key(key))) => {
            match key.kind {
                KeyKind::Press => Some(AppEvent::Key(key)),
                _ => None,
            }
        },
        Ready::Terminal(Some(TerminalEvent::Resize(columns, rows))) => Some(
            AppEvent::Resize(columns, rows),
        ),
        Ready::Terminal(Some(TerminalEvent::Mouse(mouse))) => Some(AppEvent::Mouse(mouse)),
        Ready::Terminal(_) => None,
    }
}

} // verus!
