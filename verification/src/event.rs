//! The values that cross the boundary between the host and the engine.

use vstd::prelude::*;

verus! {

/// The direction of a key transition.
#[derive(Clone, Copy, Debug, PartialEq, Eq, Hash, Structural)]
pub enum Direction {
    /// The key went down, or repeats while it is held down.
    Down,
    /// The key was released.
    Up,
}

impl Direction {
    /// Whether this is `Down`.
    pub open spec fn spec_is_down(self) -> bool {
        self == Direction::Down
    }

    /// Whether this is `Down`.
    #[verifier::when_used_as_spec(spec_is_down)]
    pub fn is_down(self) -> (down: bool)
        ensures
            down == (self == Direction::Down),
    {
        match self {
            Direction::Down => true,
            Direction::Up => false,
        }
    }
}

/// One transition of a physical key, as the operating system reports it.
#[derive(Clone, Copy, Debug, PartialEq, Eq, Hash, Structural)]
pub struct RawKeyEvent {
    /// Virtual-key code of the key.
    pub key: u32,
    /// Whether the key went down or up.
    pub direction: Direction,
}

/// A key event that the host is asked to submit to the operating system in
/// place of a suppressed one.
#[derive(Clone, Copy, Debug, PartialEq, Eq, Hash, Structural)]
pub struct SyntheticKeyEvent {
    /// Virtual-key code of the key to synthesise.
    pub key: u16,
    /// Whether the key goes down or up.
    pub direction: Direction,
}

/// The verdict on one raw key event.
#[derive(Clone, Copy, Debug, PartialEq, Eq, Hash, Structural)]
pub enum Disposition {
    /// The event is fully handled: it must reach no other observer and no
    /// application.
    Suppress,
    /// The event continues through the default processing, unchanged.
    PassThrough,
}

/// Everything the engine decides about one raw key event.
#[derive(Clone, Copy, Debug, PartialEq, Eq, Hash, Structural)]
pub struct Outcome {
    /// What becomes of the raw event itself.
    pub disposition: Disposition,
    /// The synthetic event to submit, if one is to be submitted.
    pub injection: Option<SyntheticKeyEvent>,
}

impl Outcome {
    /// The outcome that leaves an event alone: it passes through and nothing
    /// is injected.
    pub open spec fn spec_untouched() -> Outcome {
        Outcome { disposition: Disposition::PassThrough, injection: None }
    }

    /// The outcome that swallows an event without a substitute.
    pub open spec fn spec_swallowed() -> Outcome {
        Outcome { disposition: Disposition::Suppress, injection: None }
    }

    /// The outcome that replaces an event: it is suppressed and `substitute`
    /// is injected in its place.
    pub open spec fn spec_replaced(substitute: SyntheticKeyEvent) -> Outcome {
        Outcome { disposition: Disposition::Suppress, injection: Some(substitute) }
    }
}

} // verus!
