//! Key strokes and the input events they stand for.

use vstd::prelude::*;

verus! {

/// What the operator asked for with one key stroke.
#[derive(Debug, Clone, Copy, PartialEq, Eq, Structural)]
pub enum InputEvent {
    /// A character was typed into the focused field.
    Char(char),
    /// The last character of the focused field is to be removed.
    Backspace,
    /// The focused field is submitted.
    Submit,
    /// The focus moves to the other field.
    ToggleFocus,
    /// The connection is to be opened anew with the current endpoint.
    Reconnect,
    /// The session ends.
    Quit,
}

/// The keys that the console tells apart.
#[derive(Debug, Clone, Copy, PartialEq, Eq, Structural)]
pub enum Key {
    Esc,
    Enter,
    Tab,
    Backspace,
    Char(char),
    /// Any key without a meaning here.
    Other,
}

/// Whether a key went down, is held, or came up.
#[derive(Debug, Clone, Copy, PartialEq, Eq, Structural)]
pub enum KeyKind {
    Press,
    Repeat,
    Release,
}

/// One key stroke as the terminal reports it.
#[derive(Debug, Clone, Copy, PartialEq, Eq, Structural)]
pub struct KeyStroke {
    pub key: Key,
    /// Control is held, and no other modifier is.
    pub control: bool,
    pub kind: KeyKind,
}

/// The event that a pressed key stands for, if any.
///
/// Escape and Control-C quit, Control-R reconnects, every other character is
/// typed, Enter submits, Tab moves the focus and Backspace deletes.
pub open spec fn key_event(key: Key, control: bool) -> Option<InputEvent> {
    match key {
        Key::Esc => Some(InputEvent::Quit),
        Key::Char(c) => if control && (c == 'c' || c == 'C') {
            Some(InputEvent::Quit)
        } else if control && (c == 'r' || c == 'R') {
            Some(InputEvent::Reconnect)
        } else {
            Some(InputEvent::Char(c))
        },
        Key::Enter => Some(InputEvent::Submit),
        Key::Tab => Some(InputEvent::ToggleFocus),
        Key::Backspace => Some(InputEvent::Backspace),
        Key::Other => None,
    }
}

/// The event that a key stroke stands for: that of its key when the key was
/// pressed, none when it is held or released.
pub open spec fn decoded(stroke: KeyStroke) -> Option<InputEvent> {
    if stroke.kind == KeyKind::Press {
        key_event(stroke.key, stroke.control)
    } else {
        None
    }
}

/// Decodes one key stroke into the event it stands for.
pub fn decode(stroke: KeyStroke) -> (event: Option<InputEvent>)
    ensures
        event == decoded(stroke),
{
    match stroke.kind {
        KeyKind::Press => {},
        _ => {
            return None;
        },
    }
    match stroke.key {
        Key::Esc => Some(InputEvent::Quit),
        Key::Char(c) => {
            if stroke.control && (c == 'c' || c == 'C') {
                Some(InputEvent::Quit)
            } else if stroke.control && (c == 'r' || c == 'R') {
                Some(InputEvent::Reconnect)
            } else {
                Some(InputEvent::Char(c))
            }
        },
        Key::Enter => Some(InputEvent::Submit),
        Key::Tab => Some(InputEvent::ToggleFocus),
        Key::Backspace => Some(InputEvent::Backspace),
        Key::Other => None,
    }
}

/// Escape quits whatever modifier is held, and a key that is held or released
/// never produces an event.
pub proof fn lemma_decode_edges(stroke: KeyStroke)
    ensures
        stroke.kind == KeyKind::Press && stroke.key == Key::Esc ==> decoded(stroke) == Some(
            InputEvent::Quit,
        ),
        stroke.kind != KeyKind::Press ==> decoded(stroke) is None,
        decoded(stroke) is Some ==> stroke.kind == KeyKind::Press && stroke.key != Key::Other,
{
}

} // verus!
