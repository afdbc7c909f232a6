//! What the detector guarantees: the outcome of the short press patterns, and
//! two statements about every run.

use vstd::prelude::*;
use crate::debounce::{
    after_check, after_press, check_action, elapsed_nanos, is_double_press, next_token,
    press_action, scheduled, Action, DebounceModel, Event, Mode, HOTKEY_INTERVAL_NANOS,
};
use crate::trace::{
    action_at, advance, lemma_presses_grow, lemma_sequence_counts_presses, lemma_take_step,
    presses, resolved_token, sequence_modulus, state_after,
};

verus! {

/// Two presses no further apart than the interval, the first of them not
/// itself completing a double press: the first schedules a check, the second
/// resolves as edit at once, and the first one's check, when it comes due,
/// is ignored and changes nothing. One edit, no emphasis.
pub proof fn law_double_press(s: DebounceModel, t1: u64, t2: u64)
    requires
        !is_double_press(s, t1),
        elapsed_nanos(t1, t2) <= HOTKEY_INTERVAL_NANOS,
    ensures
        ({
            let first = next_token(s.sequence);
            let s1 = after_press(s, t1);
            let s2 = after_press(s1, t2);
            &&& press_action(s, t1) == scheduled(first)
            &&& press_action(s1, t2) == (Action::Resolve {
                mode: Mode::Edit,
                token: next_token(first),
            })
            &&& check_action(s2, first) == Action::Ignore
            &&& after_check(s2, first) == s2
            &&& s2.last_pressed_at is None
        }),
{
}

/// A press that completes no double press, with nothing after it: it
/// schedules a check, and the check resolves as emphasis and leaves no press
/// pending.
pub proof fn law_single_press(s: DebounceModel, t1: u64)
    requires
        !is_double_press(s, t1),
    ensures
        ({
            let first = next_token(s.sequence);
            let s1 = after_press(s, t1);
            &&& press_action(s, t1) == scheduled(first)
            &&& check_action(s1, first) == (Action::Resolve { mode: Mode::Emphasis, token: first })
            &&& after_check(s1, first).last_pressed_at is None
            &&& after_check(s1, first).sequence == first
        }),
{
}

/// A third press after a double press starts a cycle of its own, however
/// soon it comes: it schedules a check that resolves as emphasis, while the
/// first press's check is ignored whether it comes due before the third press
/// or after it.
pub proof fn law_press_after_double_press(s: DebounceModel, t1: u64, t2: u64, t3: u64)
    requires
        !is_double_press(s, t1),
        elapsed_nanos(t1, t2) <= HOTKEY_INTERVAL_NANOS,
    ensures
        ({
            let first = next_token(s.sequence);
            let second = next_token(first);
            let third = next_token(second);
            let s2 = after_press(after_press(s, t1), t2);
            let s3 = after_press(s2, t3);
            &&& press_action(after_press(s, t1), t2) == (Action::Resolve {
                mode: Mode::Edit,
                token: second,
            })
            &&& check_action(s2, first) == Action::Ignore
            &&& press_action(s2, t3) == scheduled(third)
            &&& check_action(s3, first) == Action::Ignore
            &&& check_action(s3, third) == (Action::Resolve { mode: Mode::Emphasis, token: third })
            &&& after_check(s3, third).last_pressed_at is None
        }),
{
}

/// Two presses with the first one's check coming due between them: each
/// schedules a check and each check resolves as emphasis. No edit, at
/// whatever time the second press comes.
pub proof fn law_separate_presses(s: DebounceModel, t1: u64, t2: u64)
    requires
        !is_double_press(s, t1),
    ensures
        ({
            let first = next_token(s.sequence);
            let second = next_token(first);
            let s1 = after_check(after_press(s, t1), first);
            let s2 = after_press(s1, t2);
            &&& press_action(s, t1) == scheduled(first)
            &&& check_action(after_press(s, t1), first) == (Action::Resolve {
                mode: Mode::Emphasis,
                token: first,
            })
            &&& press_action(s1, t2) == scheduled(second)
            &&& check_action(s2, second) == (Action::Resolve {
                mode: Mode::Emphasis,
                token: second,
            })
        }),
{
}

/// Two presses further apart than the interval, with the first one's check
/// running late, after the second press: the second press still schedules a
/// check and resolves as emphasis, never as edit; the late check is ignored.
pub proof fn law_late_check_never_edits(s: DebounceModel, t1: u64, t2: u64)
    requires
        !is_double_press(s, t1),
        elapsed_nanos(t1, t2) > HOTKEY_INTERVAL_NANOS,
    ensures
        ({
            let first = next_token(s.sequence);
            let second = next_token(first);
            let s2 = after_press(after_press(s, t1), t2);
            &&& press_action(after_press(s, t1), t2) == scheduled(second)
            &&& check_action(s2, first) == Action::Ignore
            &&& check_action(s2, second) == (Action::Resolve {
                mode: Mode::Emphasis,
                token: second,
            })
        }),
{
}

/// Every press changes the sequence, so a check scheduled before it can no
/// longer match.
pub proof fn law_press_invalidates_token(s: DebounceModel, now: u64)
    ensures
        after_press(s, now).sequence != s.sequence,
        check_action(after_press(s, now), s.sequence) == Action::Ignore,
{
}

/// Two counts of presses less than a full cycle of the counter apart lead to
/// different sequence values.
pub proof fn lemma_advance_differs(sequence: u64, a: nat, b: nat)
    requires
        a < b < a + sequence_modulus(),
    ensures
        advance(sequence, a) != advance(sequence, b),
{
    reveal(advance);
}

/// The token that a resolution carries is the sequence value right after the
/// event that caused it.
pub proof fn lemma_resolution_carries_current_sequence(
    s: DebounceModel,
    events: Seq<Event>,
    i: int,
)
    requires
        0 <= i < events.len(),
        action_at(s, events, i) is Resolve,
    ensures
        resolved_token(action_at(s, events, i)) == Some(
            advance(s.sequence, presses(events.take(i + 1))),
        ),
        events[i] is Press ==> presses(events.take(i + 1)) == presses(events.take(i)) + 1,
{
    lemma_take_step(s, events, i);
    lemma_sequence_counts_presses(s, events.take(i + 1));
}

/// In every run with fewer presses than the counter has values: once a newer
/// press has arrived, the check that an older press scheduled is ignored when
/// it comes due, and changes nothing. Whatever the interleaving of presses
/// and checks, the newer press alone owns the outcome.
pub proof fn law_superseded_check_is_ignored(
    s: DebounceModel,
    events: Seq<Event>,
    k: int,
    m: int,
    j: int,
    token: u64,
)
    requires
        presses(events) < sequence_modulus(),
        0 <= k < m < j < events.len(),
        action_at(s, events, k) == scheduled(token),
        events[m] is Press,
        events[j] == (Event::TimerFired { token }),
    ensures
        action_at(s, events, j) == Action::Ignore,
        state_after(s, events.take(j + 1)) == state_after(s, events.take(j)),
{
    lemma_take_step(s, events, k);
    lemma_take_step(s, events, m);
    lemma_take_step(s, events, j);
    lemma_sequence_counts_presses(s, events.take(k + 1));
    lemma_sequence_counts_presses(s, events.take(j));
    lemma_presses_grow(events, k + 1, m);
    lemma_presses_grow(events, m + 1, j);
    lemma_advance_differs(
        s.sequence,
        presses(events.take(k + 1)),
        presses(events.take(j)),
    );
}

/// The discipline of the caller's timers: a check comes due only for a token
/// that an earlier press scheduled, and no token's check comes due twice.
pub open spec fn checks_follow_schedule(s: DebounceModel, events: Seq<Event>) -> bool {
    &&& forall|j: int|
        0 <= j < events.len() && (#[trigger] events[j]) is TimerFired ==> exists|k: int|
            0 <= k < j && #[trigger] action_at(s, events, k) == scheduled(events[j]->token)
    &&& forall|i: int, j: int|
        0 <= i < j < events.len() && (#[trigger] events[i]) is TimerFired && (
        #[trigger] events[j]) is TimerFired ==> events[i]->token != events[j]->token
}

/// In every run with fewer presses than the counter has values, whose checks
/// follow the schedule: no two resolutions carry the same token. A press is
/// resolved at most once, as edit or as emphasis.
pub proof fn law_token_resolves_once(s: DebounceModel, events: Seq<Event>, i: int, j: int)
    requires
        presses(events) < sequence_modulus(),
        checks_follow_schedule(s, events),
        0 <= i < j < events.len(),
        action_at(s, events, i) is Resolve,
        action_at(s, events, j) is Resolve,
    ensures
        resolved_token(action_at(s, events, i)) != resolved_token(action_at(s, events, j)),
{
    lemma_resolution_carries_current_sequence(s, events, i);
    lemma_resolution_carries_current_sequence(s, events, j);
    lemma_take_step(s, events, i);
    lemma_take_step(s, events, j);
    lemma_presses_grow(events, i + 1, j);
    lemma_presses_grow(events, j + 1, events.len() as int);
    let pi = presses(events.take(i + 1));
    let pj = presses(events.take(j + 1));
    if events[j] is Press {
        lemma_advance_differs(s.sequence, pi, pj);
    } else if events[i] is TimerFired {
        assert(events[i]->token != events[j]->token);
    } else {
        // An edit at `i`, an emphasis at `j`. The check at `j` was scheduled by
        // a press `k` other than the one at `i`. Were `k` before `i`, the press
        // at `i` would have made the check stale; so `k` lies after `i`, and
        // its token is a later one.
        let k = choose|k: int|
            0 <= k < j && #[trigger] action_at(s, events, k) == scheduled(events[j]->token);
        lemma_take_step(s, events, k);
        lemma_sequence_counts_presses(s, events.take(k + 1));
        let pk = presses(events.take(k + 1));
        if k < i {
            lemma_presses_grow(events, k + 1, i);
            lemma_advance_differs(s.sequence, pk, pj);
        } else {
            lemma_presses_grow(events, i + 1, k);
            lemma_presses_grow(events, k + 1, j);
            lemma_advance_differs(s.sequence, pi, pj);
        }
    }
}

} // verus!
