//! The hotkey listener's decision logic. The listener thread blocks on raw
//! key reads for the life of the session; every key it wakes on is handed
//! to `listener_step`, which alone decides whether to set the shared
//! cancellation flag and stop, to send a hotkey event down the channel, or
//! to ignore the key. A failed read ends the listener without touching the
//! flag, so the foreground loop is unaffected.

use vstd::prelude::*;
use crate::session::HotkeyEvent;

verus! {

/// A raw key as the listener's logic reads it: a printable character, a
/// control chord, the escape key, or anything else.
#[derive(Clone, Copy, PartialEq, Eq, Structural, Debug)]
pub enum KeyInput {
    Char(char),
    Ctrl(char),
    Esc,
    Other,
}

/// What the listener does with one read: set the cancellation flag under
/// its lock and terminate, send one `HotkeyEvent` on the channel, ignore
/// the key, or terminate without touching the flag (after a read failure).
#[derive(Clone, Copy, PartialEq, Eq, Structural, Debug)]
pub enum ListenerAction {
    SetCancelAndStop,
    SendEvent(HotkeyEvent),
    Ignore,
    StopListening,
}

/// The recognized exit combination.
pub open spec fn is_exit_key(key: KeyInput) -> bool {
    key == KeyInput::Ctrl('q')
}

/// The recognized secondary-action combination.
pub open spec fn is_secondary_key(key: KeyInput) -> bool {
    key == KeyInput::Ctrl('g')
}

/// The listener's whole decision table: a failed read stops the listener
/// silently; the exit chord sets the flag and stops; the secondary chord
/// sends its event; every other key is ignored.
pub open spec fn listener_decision(input: Option<KeyInput>) -> ListenerAction {
    match input {
        None => ListenerAction::StopListening,
        Some(key) => if is_exit_key(key) {
            ListenerAction::SetCancelAndStop
        } else if is_secondary_key(key) {
            ListenerAction::SendEvent(HotkeyEvent::SecondaryAction)
        } else {
            ListenerAction::Ignore
        },
    }
}

/// Decides what to do with one raw key read (`None` for a read failure or
/// the end of the key stream). Ctrl-Q is the exit combination; Ctrl-G is
/// the secondary hotkey.
pub fn listener_step(input: Option<KeyInput>) -> (r: ListenerAction)
    ensures
        r == listener_decision(input),
{
    match input {
        None => ListenerAction::StopListening,
        Some(key) => match key {
            KeyInput::Ctrl(c) => if c == 'q' {
                ListenerAction::SetCancelAndStop
            } else if c == 'g' {
                ListenerAction::SendEvent(HotkeyEvent::SecondaryAction)
            } else {
                ListenerAction::Ignore
            },
            _ => ListenerAction::Ignore,
        },
    }
}

} // verus!
