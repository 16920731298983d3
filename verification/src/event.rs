//! The multiplexed event stream: the event type the run loop consumes, the
//! key and mouse event model, and the routing of raw terminal input into
//! multiplexer events.

use vstd::prelude::*;
use crate::log::LogEvent;

verus! {

/// A key on the keyboard, as far as the dashboard distinguishes keys.
#[derive(Clone, Copy, PartialEq, Eq, Structural, Debug)]
pub enum KeyCode {
    Esc,
    Char(char),
    Other,
}

/// The modifier keys held together with a key press.
#[derive(Clone, Copy, PartialEq, Eq, Structural, Debug)]
pub struct KeyModifiers {
    pub ctrl: bool,
    pub alt: bool,
    pub shift: bool,
}

/// Whether a key event reports a press, a repeat, or a release.
#[derive(Clone, Copy, PartialEq, Eq, Structural, Debug)]
pub enum KeyEventKind {
    Press,
    Repeat,
    Release,
}

/// One key event from the terminal.
#[derive(Clone, Copy, PartialEq, Eq, Structural, Debug)]
pub struct KeyEvent {
    pub code: KeyCode,
    pub modifiers: KeyModifiers,
    pub kind: KeyEventKind,
}

/// One mouse event from the terminal: the cell it points at.
#[derive(Clone, Copy, PartialEq, Eq, Structural, Debug)]
pub struct MouseEvent {
    pub column: u16,
    pub row: u16,
}

/// One event on the multiplexed channel the run loop consumes.
#[derive(Clone, Debug)]
pub enum Event {
    /// The periodic clock fired.
    Tick,
    /// A key was pressed.
    Key(KeyEvent),
    /// A mouse event arrived.
    Mouse(MouseEvent),
    /// The terminal was resized to the given width and height.
    Resize(u16, u16),
    /// A diagnostic record was captured.
    Log(LogEvent),
    /// The channel is closed and drained; no further events will come.
    Invalid,
}

/// Raw input from the terminal, before routing onto the event channel.
#[derive(Clone, Copy, PartialEq, Eq, Structural, Debug)]
pub enum TermInput {
    Key(KeyEvent),
    Mouse(MouseEvent),
    Resize(u16, u16),
    FocusGained,
    FocusLost,
    Paste,
}

/// The event the input producer forwards for a piece of raw terminal input:
/// key presses (not repeats or releases), mouse events and resizes pass
/// through; focus changes and pastes are dropped.
pub open spec fn spec_route_input(input: TermInput) -> Option<Event> {
    match input {
        TermInput::Key(k) => if k.kind == KeyEventKind::Press {
            Some(Event::Key(k))
        } else {
            None
        },
        TermInput::Mouse(m) => Some(Event::Mouse(m)),
        TermInput::Resize(w, h) => Some(Event::Resize(w, h)),
        TermInput::FocusGained => None,
        TermInput::FocusLost => None,
        TermInput::Paste => None,
    }
}

/// Routes one piece of raw terminal input onto the event channel, or drops
/// it.
pub fn route_input(input: TermInput) -> (r: Option<Event>)
    ensures
        r == spec_route_input(input),
{
    match input {
        TermInput::Key(k) => {
            match k.kind {
                KeyEventKind::Press => Some(Event::Key(k)),
                _ => None,
            }
        },
        TermInput::Mouse(m) => Some(Event::Mouse(m)),
        TermInput::Resize(w, h) => Some(Event::Resize(w, h)),
        TermInput::FocusGained => None,
        TermInput::FocusLost => None,
        TermInput::Paste => None,
    }
}

} // verus!
