//! The debounce state and its two transitions: a press and a deferred check.

use vstd::prelude::*;

verus! {

/// Length of the double-press window in milliseconds.
pub const HOTKEY_INTERVAL_MS: u64 = 300;

/// Length of the double-press window in nanoseconds, the unit of every
/// timestamp handed to this module.
pub const HOTKEY_INTERVAL_NANOS: u64 = 300_000_000;

/// Nanoseconds in a millisecond.
pub const NANOS_PER_MILLI: u64 = 1_000_000;

/// The two statements of the interval agree.
pub proof fn interval_units_agree()
    ensures
        HOTKEY_INTERVAL_NANOS == HOTKEY_INTERVAL_MS * NANOS_PER_MILLI,
{
}

/// What the window layer is asked to present once a press is resolved.
#[derive(Clone, Copy, Debug, PartialEq, Eq, Structural)]
pub enum Mode {
    /// A double press: the overlay becomes editable.
    Edit,
    /// A single press whose window elapsed unchallenged.
    Emphasis,
}

/// One input of the state machine. Each is handled atomically by the caller,
/// under the lock that guards the state.
#[derive(Clone, Copy, Debug, PartialEq, Eq, Structural)]
pub enum Event {
    /// The hotkey was pressed at `now`, nanoseconds on a monotonic clock.
    Press { now: u64 },
    /// The deferred check scheduled with `token` has come due.
    TimerFired { token: u64 },
}

/// What the caller has to do after an event.
#[derive(Clone, Copy, Debug, PartialEq, Eq, Structural)]
pub enum Action {
    /// Signal a resolution to the window layer. `token` is the sequence value
    /// of the press that the resolution belongs to.
    Resolve { mode: Mode, token: u64 },
    /// Run a deferred check carrying `token` once `delay_ms` milliseconds
    /// have elapsed.
    ScheduleCheck { token: u64, delay_ms: u64 },
    /// A stale timer: a newer press owns the outcome.
    Ignore,
}

/// The mathematical content of a [`DebounceState`].
pub struct DebounceModel {
    /// Time of the most recent press that is still unresolved, if any.
    pub last_pressed_at: Option<u64>,
    /// Generation counter, advanced by every press.
    pub sequence: u64,
}

/// Time from `earlier` to `later` on a monotonic clock; zero where `later`
/// does not come after `earlier`.
pub open spec fn elapsed_nanos(earlier: u64, later: u64) -> nat {
    if later >= earlier {
        (later - earlier) as nat
    } else {
        0
    }
}

/// A press at `now` completes a double press exactly when an unresolved press
/// is pending and no more than the interval has passed since it.
pub open spec fn is_double_press(s: DebounceModel, now: u64) -> bool {
    match s.last_pressed_at {
        Some(last) => elapsed_nanos(last, now) <= HOTKEY_INTERVAL_NANOS,
        None => false,
    }
}

/// The sequence value that follows `sequence`, wrapping round at the top.
pub open spec fn next_token(sequence: u64) -> u64 {
    if sequence == u64::MAX {
        0
    } else {
        (sequence + 1) as u64
    }
}

/// The state that a press at `now` leaves behind.
pub open spec fn after_press(s: DebounceModel, now: u64) -> DebounceModel {
    DebounceModel {
        last_pressed_at: if is_double_press(s, now) {
            None
        } else {
            Some(now)
        },
        sequence: next_token(s.sequence),
    }
}

/// The request for a deferred check carrying `token`, one interval from now.
pub open spec fn scheduled(token: u64) -> Action {
    Action::ScheduleCheck { token, delay_ms: HOTKEY_INTERVAL_MS }
}

/// The action that a press at `now` asks for.
pub open spec fn press_action(s: DebounceModel, now: u64) -> Action {
    if is_double_press(s, now) {
        Action::Resolve { mode: Mode::Edit, token: next_token(s.sequence) }
    } else {
        scheduled(next_token(s.sequence))
    }
}

/// The state that a deferred check carrying `token` leaves behind.
pub open spec fn after_check(s: DebounceModel, token: u64) -> DebounceModel {
    if s.sequence == token {
        DebounceModel { last_pressed_at: None, sequence: s.sequence }
    } else {
        s
    }
}

/// The action that a deferred check carrying `token` asks for.
pub open spec fn check_action(s: DebounceModel, token: u64) -> Action {
    if s.sequence == token {
        Action::Resolve { mode: Mode::Emphasis, token }
    } else {
        Action::Ignore
    }
}

/// The state after one event.
pub open spec fn after_event(s: DebounceModel, event: Event) -> DebounceModel {
    match event {
        Event::Press { now } => after_press(s, now),
        Event::TimerFired { token } => after_check(s, token),
    }
}

/// The action that one event asks for.
pub open spec fn event_action(s: DebounceModel, event: Event) -> Action {
    match event {
        Event::Press { now } => press_action(s, now),
        Event::TimerFired { token } => check_action(s, token),
    }
}

/// The state of a freshly started process: nothing pending, sequence zero.
pub open spec fn initial_model() -> DebounceModel {
    DebounceModel { last_pressed_at: None, sequence: 0 }
}

/// The shared state of the detector. It changes only through
/// [`DebounceState::on_press`], [`DebounceState::deferred_check`] and
/// [`DebounceState::handle`], which dispatches to the two.
#[derive(Debug)]
pub struct DebounceState {
    last_pressed_at: Option<u64>,
    sequence: u64,
}

impl View for DebounceState {
    type V = DebounceModel;

    closed spec fn view(&self) -> DebounceModel {
        DebounceModel { last_pressed_at: self.last_pressed_at, sequence: self.sequence }
    }
}

impl DebounceState {
    /// The state at process start.
    pub fn new() -> (state: DebounceState)
        ensures
            state@ == initial_model(),
    {
        DebounceState { last_pressed_at: None, sequence: 0 }
    }

    /// Time of the pending press, if one is unresolved.
    pub fn last_pressed_at(&self) -> (last: Option<u64>)
        ensures
            last == self@.last_pressed_at,
    {
        self.last_pressed_at
    }

    /// The current sequence value.
    pub fn sequence(&self) -> (sequence: u64)
        ensures
            sequence == self@.sequence,
    {
        self.sequence
    }

    /// Handles one hotkey press at `now`. The sequence advances in every
    /// case. A press within the interval of a pending one resolves as a
    /// double press at once and clears the pending press; any other press
    /// becomes the pending one and asks for a deferred check, one interval
    /// from now, with the new sequence value as its token.
    pub fn on_press(&mut self, now: u64) -> (action: Action)
        ensures
            final(self)@ == after_press(old(self)@, now),
            action == press_action(old(self)@, now),
    {
        let is_double: bool = match self.last_pressed_at {
            Some(last) => now <= last || now - last <= HOTKEY_INTERVAL_NANOS,
            None => false,
        };
        self.sequence = self.sequence.wrapping_add(1);
        let token: u64 = self.sequence;
        if is_double {
            self.last_pressed_at = None;
            Action::Resolve { mode: Mode::Edit, token }
        } else {
            self.last_pressed_at = Some(now);
            Action::ScheduleCheck { token, delay_ms: HOTKEY_INTERVAL_MS }
        }
    }

    /// Runs the deferred check that was scheduled with `token`. It resolves
    /// the single press, and clears the pending press, exactly when no press
    /// has advanced the sequence since; otherwise it changes nothing.
    pub fn deferred_check(&mut self, token: u64) -> (action: Action)
        ensures
            final(self)@ == after_check(old(self)@, token),
            action == check_action(old(self)@, token),
    {
        if self.sequence == token {
            self.last_pressed_at = None;
            Action::Resolve { mode: Mode::Emphasis, token }
        } else {
            Action::Ignore
        }
    }

    /// Handles one event, a press or a timer that came due.
    pub fn handle(&mut self, event: Event) -> (action: Action)
        ensures
            final(self)@ == after_event(old(self)@, event),
            action == event_action(old(self)@, event),
    {
        match event {
            Event::Press { now } => self.on_press(now),
            Event::TimerFired { token } => self.deferred_check(token),
        }
    }
}

impl Default for DebounceState {
    fn default() -> (state: DebounceState)
        ensures
            state@ == initial_model(),
    {
        DebounceState::new()
    }
}

} // verus!
