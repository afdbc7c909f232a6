//! Runs of the state machine over a sequence of events, and what holds of
//! every run.
//!
//! The caller handles each event under one lock, so whatever the threads do,
//! what the state sees is some sequence of presses and timers that came due.
//! A statement about every such sequence is a statement about every
//! interleaving.

use vstd::prelude::*;
use crate::debounce::{
    after_event, event_action, initial_model, Action, DebounceModel, DebounceState, Event,
};

verus! {

/// The state after handling `events` in order, starting from `s`.
pub open spec fn state_after(s: DebounceModel, events: Seq<Event>) -> DebounceModel
    decreases events.len(),
{
    if events.len() == 0 {
        s
    } else {
        after_event(state_after(s, events.drop_last()), events.last())
    }
}

/// The action that the event at position `i` asks for in a run from `s`.
pub open spec fn action_at(s: DebounceModel, events: Seq<Event>, i: int) -> Action
    recommends
        0 <= i < events.len(),
{
    event_action(state_after(s, events.take(i)), events[i])
}

/// The number of presses among `events`.
pub open spec fn presses(events: Seq<Event>) -> nat
    decreases events.len(),
{
    if events.len() == 0 {
        0
    } else {
        presses(events.drop_last()) + if events.last() is Press {
            1nat
        } else {
            0nat
        }
    }
}

/// The number of values that the sequence counter can take.
pub open spec fn sequence_modulus() -> int {
    0x1_0000_0000_0000_0000
}

/// The sequence value reached from `sequence` by `n` presses.
#[verifier::opaque]
pub open spec fn advance(sequence: u64, n: nat) -> u64 {
    ((sequence + n) % sequence_modulus()) as u64
}

/// The token that a resolution carries, if the action is one.
pub open spec fn resolved_token(action: Action) -> Option<u64> {
    match action {
        Action::Resolve { token, .. } => Some(token),
        _ => None,
    }
}

/// Handles `events` in order and returns the action that each one asks for.
pub fn replay(state: &mut DebounceState, events: &Vec<Event>) -> (actions: Vec<Action>)
    ensures
        final(state)@ == state_after(old(state)@, events@),
        actions@.len() == events@.len(),
        forall|i: int|
            0 <= i < events@.len() ==> #[trigger] actions@[i] == action_at(
                old(state)@,
                events@,
                i,
            ),
{
    let ghost start = state@;
    let mut actions: Vec<Action> = Vec::new();
    let mut i: usize = 0;
    while i < events.len()
        invariant
            0 <= i <= events@.len(),
            state@ == state_after(start, events@.take(i as int)),
            actions@.len() == i,
            forall|k: int| 0 <= k < i ==> #[trigger] actions@[k] == action_at(start, events@, k),
        decreases events@.len() - i,
    {
        proof {
            lemma_take_step(start, events@, i as int);
        }
        let action = state.handle(events[i]);
        actions.push(action);
        i += 1;
    }
    proof {
        assert(events@.take(i as int) =~= events@);
    }
    actions
}

/// Handling one more event of a run: the state moves by that event, and the
/// count of presses grows by one exactly when the event is a press.
pub proof fn lemma_take_step(s: DebounceModel, events: Seq<Event>, n: int)
    requires
        0 <= n < events.len(),
    ensures
        state_after(s, events.take(n + 1)) == after_event(
            state_after(s, events.take(n)),
            events[n],
        ),
        presses(events.take(n + 1)) == presses(events.take(n)) + if events[n] is Press {
            1nat
        } else {
            0nat
        },
{
    assert(events.take(n + 1).drop_last() =~= events.take(n));
    assert(events.take(n + 1).last() == events[n]);
}

/// Only presses move the sequence, each by one step.
pub proof fn lemma_sequence_counts_presses(s: DebounceModel, events: Seq<Event>)
    ensures
        state_after(s, events).sequence == advance(s.sequence, presses(events)),
    decreases events.len(),
{
    reveal(advance);
    if events.len() > 0 {
        lemma_sequence_counts_presses(s, events.drop_last());
    }
}

/// A longer prefix of a run holds at least as many presses as a shorter one.
pub proof fn lemma_presses_grow(events: Seq<Event>, n: int, m: int)
    requires
        0 <= n <= m <= events.len(),
    ensures
        presses(events.take(n)) <= presses(events.take(m)) <= presses(events),
    decreases events.len() - n,
{
    if m < events.len() {
        lemma_take_step(initial_model(), events, m);
        lemma_presses_grow(events, m + 1, events.len() as int);
    } else {
        assert(events.take(m) =~= events);
    }
    if n < m {
        lemma_take_step(initial_model(), events, n);
        lemma_presses_grow(events, n + 1, m);
    }
}

} // verus!
