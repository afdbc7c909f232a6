//! Double-press detection for a global hotkey.
//!
//! The crate holds the decisions of a small overlay utility: whether a hotkey
//! press completes a double press or starts a single-press cycle, whether a
//! deferred timer is still entitled to act, and what the window layer is told
//! to do. Timers, locks and windows belong to the caller, which feeds the
//! state machine one event at a time and carries out the action it names.

pub mod clock;
pub mod debounce;
pub mod laws;
pub mod trace;
pub mod window;
