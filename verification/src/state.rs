//! The modifier state tracker: which sides of the meta key are held.

use vstd::prelude::*;
use crate::keys::ModifierSide;

verus! {

/// For each side of the meta key, whether it is currently held.
///
/// Every pair of flags is a valid state; the two flags are independent of
/// each other.
#[derive(Clone, Copy, Debug, PartialEq, Eq, Hash, Structural)]
pub struct ModifierState {
    /// Whether the left meta key is held.
    pub left: bool,
    /// Whether the right meta key is held.
    pub right: bool,
}

impl ModifierState {
    /// The state in which neither side is held.
    pub open spec fn spec_released() -> ModifierState {
        ModifierState { left: false, right: false }
    }

    /// Whether `side` is held.
    pub open spec fn spec_is_held(self, side: ModifierSide) -> bool {
        match side {
            ModifierSide::Left => self.left,
            ModifierSide::Right => self.right,
        }
    }

    /// Whether at least one side is held.
    pub open spec fn spec_is_any_held(self) -> bool {
        self.left || self.right
    }

    /// This state with the flag of `side` replaced by `held`.
    pub open spec fn spec_with(self, side: ModifierSide, held: bool) -> ModifierState {
        match side {
            ModifierSide::Left => ModifierState { left: held, right: self.right },
            ModifierSide::Right => ModifierState { left: self.left, right: held },
        }
    }

    /// The state at start: neither side is held.
    pub fn new() -> (state: ModifierState)
        ensures
            state == ModifierState::spec_released(),
            !state.spec_is_any_held(),
    {
        ModifierState { left: false, right: false }
    }

    /// Overwrites the flag of `side` with `held`, whatever it was, and leaves
    /// the other side's flag as it is.
    pub fn set(&mut self, side: ModifierSide, held: bool)
        ensures
            *final(self) == old(self).spec_with(side, held),
            final(self).spec_is_held(side) == held,
            final(self).spec_is_held(side.spec_other()) == old(self).spec_is_held(
                side.spec_other(),
            ),
    {
        match side {
            ModifierSide::Left => {
                self.left = held;
            },
            ModifierSide::Right => {
                self.right = held;
            },
        }
    }

    /// Whether `side` is held.
    #[verifier::when_used_as_spec(spec_is_held)]
    pub fn is_held(self, side: ModifierSide) -> (held: bool)
        ensures
            held == self.spec_is_held(side),
    {
        match side {
            ModifierSide::Left => self.left,
            ModifierSide::Right => self.right,
        }
    }

    /// Whether either side is held.
    #[verifier::when_used_as_spec(spec_is_any_held)]
    pub fn is_any_held(self) -> (any: bool)
        ensures
            any == (self.spec_is_held(ModifierSide::Left) || self.spec_is_held(
                ModifierSide::Right,
            )),
    {
        self.left || self.right
    }
}

/// What `set` writes is what a later read finds: the flag of the side that
/// was set holds the new value, the flag of the other side its old one, and
/// some side is held afterwards exactly if the new value is `true` or the
/// other side was held.
pub proof fn lemma_set_then_read(state: ModifierState, side: ModifierSide, held: bool)
    ensures
        state.spec_with(side, held).spec_is_held(side) == held,
        state.spec_with(side, held).spec_is_held(side.spec_other()) == state.spec_is_held(
            side.spec_other(),
        ),
        state.spec_with(side, held).spec_is_any_held() == (held || state.spec_is_held(
            side.spec_other(),
        )),
{
}

/// Writing the same side twice leaves only the second value; writing the two
/// sides commutes.
pub proof fn lemma_set_overwrites_and_commutes(
    state: ModifierState,
    side: ModifierSide,
    first: bool,
    second: bool,
)
    ensures
        state.spec_with(side, first).spec_with(side, second) == state.spec_with(side, second),
        state.spec_with(side, first).spec_with(side.spec_other(), second) == state.spec_with(
            side.spec_other(),
            second,
        ).spec_with(side, first),
{
}

} // verus!
