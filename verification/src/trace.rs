//! Whole streams of events: what the engine makes of a sequence, and what
//! holds of the tracker after any history.

use vstd::prelude::*;
use crate::engine::{spec_next_state, spec_other_key_outcome, spec_outcome, RemapEngine};
use crate::event::{Direction, Disposition, Outcome, RawKeyEvent};
use crate::keys::{spec_meta_side, ModifierSide};
use crate::state::ModifierState;

verus! {

/// The tracker's state after the events of `events` have been processed in
/// order, starting in `state`.
pub open spec fn spec_run(state: ModifierState, events: Seq<RawKeyEvent>) -> ModifierState
    decreases events.len(),
{
    if events.len() == 0 {
        state
    } else {
        spec_next_state(spec_run(state, events.drop_last()), events.last())
    }
}

/// The outcomes of the events of `events`, processed in order starting in
/// `state`: each event is decided in the state that the events before it
/// have left.
pub open spec fn spec_outcomes(state: ModifierState, events: Seq<RawKeyEvent>) -> Seq<Outcome> {
    Seq::new(events.len(), |i: int| spec_outcome(spec_run(state, events.take(i)), events[i]))
}

/// Whether `events[i]` is the latest event of the meta key of `side`.
pub open spec fn is_latest_transition(
    events: Seq<RawKeyEvent>,
    side: ModifierSide,
    i: int,
) -> bool {
    &&& 0 <= i < events.len()
    &&& events[i].key == side.spec_meta_key()
    &&& forall|j: int| i < j < events.len() ==> (#[trigger] events[j]).key != side.spec_meta_key()
}

/// Whether no event of `events` is of the meta key of `side`.
pub open spec fn has_no_transition(events: Seq<RawKeyEvent>, side: ModifierSide) -> bool {
    forall|j: int| 0 <= j < events.len() ==> (#[trigger] events[j]).key != side.spec_meta_key()
}

impl RemapEngine {
    /// Processes `events` in order and returns their outcomes, one for each
    /// event and in the same order.
    pub fn process_all(&mut self, events: &[RawKeyEvent]) -> (outcomes: Vec<Outcome>)
        ensures
            final(self)@ == spec_run(old(self)@, events@),
            outcomes@ == spec_outcomes(old(self)@, events@),
            outcomes@.len() == events@.len(),
    {
        let mut outcomes: Vec<Outcome> = Vec::new();
        let mut i: usize = 0;
        while i < events.len()
            invariant
                i <= events@.len(),
                self@ == spec_run(old(self)@, events@.take(i as int)),
                outcomes@ == spec_outcomes(old(self)@, events@.take(i as int)),
            decreases events@.len() - i,
        {
            let ghost before = events@.take(i as int);
            let ghost after = events@.take(i + 1);
            let outcome = self.process(events[i]);
            outcomes.push(outcome);
            proof {
                assert(after == before.push(events@[i as int]));
                lemma_run_push(old(self)@, before, events@[i as int]);
            }
            i += 1;
        }
        proof {
            assert(events@.take(i as int) == events@);
        }
        outcomes
    }
}

/// Processing one more event continues from where the events before it
/// ended.
pub proof fn lemma_run_push(state: ModifierState, events: Seq<RawKeyEvent>, event: RawKeyEvent)
    ensures
        spec_run(state, events.push(event)) == spec_next_state(spec_run(state, events), event),
        spec_outcomes(state, events.push(event)) == spec_outcomes(state, events).push(
            spec_outcome(spec_run(state, events), event),
        ),
{
    let longer = events.push(event);
    assert(longer.drop_last() == events);
    assert forall|k: int| 0 <= k < longer.len() implies #[trigger] spec_outcomes(state, longer)[k]
        == spec_outcomes(state, events).push(spec_outcome(spec_run(state, events), event))[k] by {
        if k < events.len() {
            assert(longer.take(k) == events.take(k));
        }
    }
}

/// While no meta key is involved, the order and number of events do not
/// matter: a stream without any meta-key event leaves the state as it is,
/// and each of its events passes through if no meta key is held and is
/// suppressed if one is; nothing is injected.
pub proof fn lemma_other_keys_leave_state(state: ModifierState, events: Seq<RawKeyEvent>)
    requires
        forall|j: int| 0 <= j < events.len() ==> spec_meta_side((#[trigger] events[j]).key) is None,
    ensures
        spec_run(state, events) == state,
        forall|i: int|
            0 <= i < events.len() ==> #[trigger] spec_outcomes(state, events)[i]
                == spec_other_key_outcome(state),
        forall|i: int|
            0 <= i < events.len() ==> (#[trigger] spec_outcomes(
                state,
                events,
            )[i]).injection is None,
        !state.spec_is_any_held() ==> forall|i: int|
            0 <= i < events.len() ==> (#[trigger] spec_outcomes(state, events)[i]).disposition
                == Disposition::PassThrough,
    decreases events.len(),
{
    if events.len() > 0 {
        lemma_other_keys_leave_state(state, events.drop_last());
        assert forall|i: int| 0 <= i < events.len() implies #[trigger] spec_outcomes(
            state,
            events,
        )[i] == spec_other_key_outcome(state) by {
            lemma_other_keys_leave_state(state, events.take(i));
        }
    }
}

/// After any history, a side's flag tells how the latest event of that
/// side's meta key went: the side is held exactly if that event was a
/// `Down`. A side of which the history holds no event keeps the flag it
/// started with.
pub proof fn lemma_held_tracks_latest_transition(
    state: ModifierState,
    events: Seq<RawKeyEvent>,
    side: ModifierSide,
)
    ensures
        forall|i: int| #[trigger]
            is_latest_transition(events, side, i) ==> spec_run(state, events).spec_is_held(side)
                == (events[i].direction == Direction::Down),
        has_no_transition(events, side) ==> spec_run(state, events).spec_is_held(side)
            == state.spec_is_held(side),
    decreases events.len(),
{
    if events.len() > 0 {
        let earlier = events.drop_last();
        lemma_held_tracks_latest_transition(state, earlier, side);
        if events.last().key != side.spec_meta_key() {
            assert forall|i: int| #[trigger]
                is_latest_transition(events, side, i) implies is_latest_transition(
                earlier,
                side,
                i,
            ) && earlier[i] == events[i] by {
                assert forall|j: int| i < j < earlier.len() implies (#[trigger] earlier[j]).key
                    != side.spec_meta_key() by {
                    assert(earlier[j] == events[j]);
                }
            }
            if has_no_transition(events, side) {
                assert forall|j: int| 0 <= j < earlier.len() implies (#[trigger] earlier[j]).key
                    != side.spec_meta_key() by {
                    assert(earlier[j] == events[j]);
                }
            }
        }
    }
}

/// A history either holds no event of the meta key of `side`, or one of its
/// events is the latest of that key.
pub proof fn lemma_latest_transition_exists(events: Seq<RawKeyEvent>, side: ModifierSide)
    ensures
        has_no_transition(events, side) || exists|i: int| is_latest_transition(events, side, i),
    decreases events.len(),
{
    if events.len() > 0 {
        let earlier = events.drop_last();
        let top = events.len() - 1;
        if events[top].key == side.spec_meta_key() {
            assert(is_latest_transition(events, side, top));
        } else {
            lemma_latest_transition_exists(earlier, side);
            if has_no_transition(earlier, side) {
                assert forall|j: int| 0 <= j < events.len() implies (#[trigger] events[j]).key
                    != side.spec_meta_key() by {
                    if j < top {
                        assert(earlier[j] == events[j]);
                    }
                }
            } else {
                let i = choose|i: int| is_latest_transition(earlier, side, i);
                assert forall|j: int| i < j < events.len() implies (#[trigger] events[j]).key
                    != side.spec_meta_key() by {
                    if j < top {
                        assert(earlier[j] == events[j]);
                    }
                }
                assert(is_latest_transition(events, side, i));
            }
        }
    }
}

/// Started with no key held, a side is held after a history exactly if the
/// history holds a `Down` of that side's meta key with no later event of
/// that key.
pub proof fn lemma_held_iff_unreleased_down(events: Seq<RawKeyEvent>, side: ModifierSide)
    ensures
        spec_run(ModifierState::spec_released(), events).spec_is_held(side) <==> exists|i: int|
            #[trigger] is_latest_transition(events, side, i) && events[i].direction
                == Direction::Down,
{
    lemma_held_tracks_latest_transition(ModifierState::spec_released(), events, side);
    lemma_latest_transition_exists(events, side);
}

} // verus!
