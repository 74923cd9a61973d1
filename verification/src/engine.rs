//! The remap engine: the decision taken for each raw key event.
//!
//! A meta-key event is always suppressed and replaced by a control-key event
//! of the same side and direction, and the tracker records whether that side
//! is now held. While any side is held, every other key event is suppressed
//! without a substitute. Otherwise events pass through.

use vstd::prelude::*;
use crate::event::{Direction, Disposition, Outcome, RawKeyEvent, SyntheticKeyEvent};
use crate::keys::{meta_side, spec_meta_side, ModifierSide};
use crate::state::ModifierState;

verus! {

/// The control-key event that stands in for a meta-key event of `side` and
/// `direction`.
pub open spec fn spec_substitute(side: ModifierSide, direction: Direction) -> SyntheticKeyEvent {
    SyntheticKeyEvent { key: side.spec_control_key(), direction }
}

/// One write to the tracker: the side whose flag is overwritten, and the
/// value that it is overwritten with.
#[derive(Clone, Copy, Debug, PartialEq, Eq, Hash, Structural)]
pub struct TrackerWrite {
    /// The side whose flag is written.
    pub side: ModifierSide,
    /// The value written.
    pub held: bool,
}

/// The write that `event` causes: a meta-key event writes "the direction is
/// `Down`" to the flag of its side, whatever that flag held; no other event
/// writes anything.
pub open spec fn spec_tracker_write(event: RawKeyEvent) -> Option<TrackerWrite> {
    match spec_meta_side(event.key) {
        Some(side) => Some(TrackerWrite { side, held: event.direction == Direction::Down }),
        None => None,
    }
}

/// The tracker's state after `event` has been processed in `state`: the
/// state with the event's write applied, if it causes one.
pub open spec fn spec_next_state(state: ModifierState, event: RawKeyEvent) -> ModifierState {
    match spec_tracker_write(event) {
        Some(write) => state.spec_with(write.side, write.held),
        None => state,
    }
}

/// The outcome of an event of any key other than the meta key in `state`:
/// swallowed while a meta key is held, untouched otherwise.
pub open spec fn spec_other_key_outcome(state: ModifierState) -> Outcome {
    if state.spec_is_any_held() {
        Outcome::spec_swallowed()
    } else {
        Outcome::spec_untouched()
    }
}

/// The outcome of processing `event` in `state`.
///
/// A meta-key event is replaced by its substitute, whatever the state; any
/// other event is decided by whether a meta key is held.
pub open spec fn spec_outcome(state: ModifierState, event: RawKeyEvent) -> Outcome {
    match spec_meta_side(event.key) {
        Some(side) => Outcome::spec_replaced(spec_substitute(side, event.direction)),
        None => spec_other_key_outcome(state),
    }
}

/// The engine, which owns the modifier state tracker. Its view is the
/// tracker's state.
#[derive(Debug)]
pub struct RemapEngine {
    modifiers: ModifierState,
}

impl View for RemapEngine {
    type V = ModifierState;

    closed spec fn view(&self) -> ModifierState {
        self.modifiers
    }
}

/// Tells what `event` writes to the tracker: for a meta-key event, its side
/// and whether the direction is `Down`; for any other event, nothing. The
/// write does not depend on what the tracker holds, so a host that keeps the
/// flags in shared storage applies it to the one flag, unconditionally.
#[verifier::when_used_as_spec(spec_tracker_write)]
pub fn tracker_write(event: RawKeyEvent) -> (write: Option<TrackerWrite>)
    ensures
        write == spec_tracker_write(event),
        write is Some <==> spec_meta_side(event.key) is Some,
        write matches Some(w) ==> spec_meta_side(event.key) == Some(w.side) && w.held == (
        event.direction == Direction::Down),
{
    match meta_side(event.key) {
        Some(side) => Some(TrackerWrite { side, held: event.direction.is_down() }),
        None => None,
    }
}

impl RemapEngine {
    /// An engine at start: no meta key is held.
    pub fn new() -> (engine: RemapEngine)
        ensures
            engine@ == ModifierState::spec_released(),
            !engine@.spec_is_any_held(),
    {
        RemapEngine { modifiers: ModifierState::new() }
    }

    /// An engine that resumes from `modifiers`.
    pub fn with_state(modifiers: ModifierState) -> (engine: RemapEngine)
        ensures
            engine@ == modifiers,
    {
        RemapEngine { modifiers }
    }

    /// The tracker's current state.
    pub fn modifiers(&self) -> (state: ModifierState)
        ensures
            state == self@,
    {
        self.modifiers
    }

    /// Whether any meta key is currently held.
    pub fn is_any_held(&self) -> (any: bool)
        ensures
            any == self@.spec_is_any_held(),
    {
        self.modifiers.is_any_held()
    }

    /// Processes one raw key event: updates the tracker and returns the
    /// event's disposition together with the synthetic event to inject, if
    /// any.
    pub fn process(&mut self, event: RawKeyEvent) -> (outcome: Outcome)
        ensures
            final(self)@ == spec_next_state(old(self)@, event),
            outcome == spec_outcome(old(self)@, event),
    {
        match tracker_write(event) {
            Some(write) => {
                self.modifiers.set(write.side, write.held);
                let substitute = SyntheticKeyEvent {
                    key: write.side.control_key(),
                    direction: event.direction,
                };
                Outcome { disposition: Disposition::Suppress, injection: Some(substitute) }
            },
            None => {
                if self.modifiers.is_any_held() {
                    Outcome { disposition: Disposition::Suppress, injection: None }
                } else {
                    Outcome { disposition: Disposition::PassThrough, injection: None }
                }
            },
        }
    }

    /// Handles what the host decoded from one delivery: a key transition is
    /// processed; a delivery that carries none passes through and changes
    /// nothing.
    pub fn handle(&mut self, delivery: Option<RawKeyEvent>) -> (outcome: Outcome)
        ensures
            delivery matches Some(event) ==> {
                &&& final(self)@ == spec_next_state(old(self)@, event)
                &&& outcome == spec_outcome(old(self)@, event)
            },
            delivery is None ==> {
                &&& final(self)@ == old(self)@
                &&& outcome == Outcome::spec_untouched()
            },
    {
        match delivery {
            Some(event) => self.process(event),
            None => Outcome { disposition: Disposition::PassThrough, injection: None },
        }
    }
}

/// An event of a key other than the meta key, arriving while no meta key is
/// held, passes through, injects nothing and leaves the state as it is.
pub proof fn lemma_other_key_passes_when_released(state: ModifierState, event: RawKeyEvent)
    requires
        spec_meta_side(event.key) is None,
        !state.spec_is_any_held(),
    ensures
        spec_outcome(state, event) == Outcome::spec_untouched(),
        spec_outcome(state, event).disposition == Disposition::PassThrough,
        spec_outcome(state, event).injection is None,
        spec_next_state(state, event) == state,
{
}

/// An event of a key other than the meta key, arriving while a meta key is
/// held, is suppressed, injects nothing and leaves the state as it is.
pub proof fn lemma_other_key_suppressed_under_hold(state: ModifierState, event: RawKeyEvent)
    requires
        spec_meta_side(event.key) is None,
        state.spec_is_any_held(),
    ensures
        spec_outcome(state, event) == Outcome::spec_swallowed(),
        spec_outcome(state, event).disposition == Disposition::Suppress,
        spec_outcome(state, event).injection is None,
        spec_next_state(state, event) == state,
{
}

/// A `Down` of the meta key of `side` is suppressed, injects a `Down` of the
/// control key of the same side, and marks that side held; the other side
/// keeps its flag. This holds in every state, so also when the side is held
/// already: a repeated `Down` injects again and leaves the state as it is.
pub proof fn lemma_meta_down_presses_control(state: ModifierState, side: ModifierSide)
    ensures
        ({
            let event = RawKeyEvent { key: side.spec_meta_key(), direction: Direction::Down };
            let next = spec_next_state(state, event);
            &&& spec_outcome(state, event).disposition == Disposition::Suppress
            &&& spec_outcome(state, event).injection == Some(
                SyntheticKeyEvent { key: side.spec_control_key(), direction: Direction::Down },
            )
            &&& next.spec_is_held(side)
            &&& next.spec_is_held(side.spec_other()) == state.spec_is_held(side.spec_other())
            &&& next.spec_is_any_held()
            &&& state.spec_is_held(side) ==> next == state
        }),
{
}

/// An `Up` of the meta key of `side` is suppressed, injects an `Up` of the
/// control key of the same side, and marks that side released, whether or
/// not it was held; the other side keeps its flag, whatever it is.
pub proof fn lemma_meta_up_releases_control(state: ModifierState, side: ModifierSide)
    ensures
        ({
            let event = RawKeyEvent { key: side.spec_meta_key(), direction: Direction::Up };
            let next = spec_next_state(state, event);
            &&& spec_outcome(state, event).disposition == Disposition::Suppress
            &&& spec_outcome(state, event).injection == Some(
                SyntheticKeyEvent { key: side.spec_control_key(), direction: Direction::Up },
            )
            &&& !next.spec_is_held(side)
            &&& next.spec_is_held(side.spec_other()) == state.spec_is_held(side.spec_other())
            &&& next.spec_is_any_held() == state.spec_is_held(side.spec_other())
        }),
{
}

/// Something is injected exactly for meta-key events, and every injected
/// event is a control key of the side and direction of the event it replaces.
/// A meta-key event is never passed through.
pub proof fn lemma_injection_only_for_meta(state: ModifierState, event: RawKeyEvent)
    ensures
        spec_outcome(state, event).injection is Some <==> spec_meta_side(event.key) is Some,
        spec_meta_side(event.key) matches Some(side) ==> {
            &&& spec_outcome(state, event).disposition == Disposition::Suppress
            &&& spec_outcome(state, event).injection == Some(
                spec_substitute(side, event.direction),
            )
        },
        spec_outcome(state, event).disposition == Disposition::PassThrough ==> {
            &&& spec_next_state(state, event) == state
            &&& spec_outcome(state, event).injection is None
        },
{
}

/// Processing the same event a second time decides as the first time did
/// and changes nothing further.
pub proof fn lemma_process_is_idempotent(state: ModifierState, event: RawKeyEvent)
    ensures
        spec_next_state(spec_next_state(state, event), event) == spec_next_state(state, event),
        spec_outcome(spec_next_state(state, event), event) == spec_outcome(state, event),
{
}

} // verus!
