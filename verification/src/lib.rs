//! Core of an interactive chat client: the ordered conversation context,
//! the session controller's state machine, and the hotkey listener's
//! decision logic. All I/O (terminal, HTTP transport) lives outside the
//! library; the functions here are pure decisions over plain values.

pub mod backend;
pub mod context;
pub mod listener;
pub mod session;
