//! The input injector's share that needs no operating system: the descriptor
//! of one synthetic key event, and the reading of the submission's result.

use vstd::prelude::*;
use crate::event::{Direction, SyntheticKeyEvent};

verus! {

/// The flag that marks a keyboard input descriptor as a key release.
pub const KEY_UP_FLAG: u32 = 0x0002;

/// The number of descriptors in one submission: each synthetic event is
/// submitted by itself.
pub const EVENTS_PER_SUBMISSION: u32 = 1;

/// The descriptor of one synthetic keyboard input, as the operating system's
/// input subsystem takes it.
#[derive(Clone, Copy, Debug, PartialEq, Eq, Hash, Structural)]
pub struct KeyboardInput {
    /// Virtual-key code of the key.
    pub virtual_key: u16,
    /// Hardware scan code; zero, as the key is named by its virtual-key code.
    pub scan_code: u16,
    /// `KEY_UP_FLAG` for a release, no flag for a press.
    pub flags: u32,
    /// Time stamp; zero lets the operating system provide its own.
    pub time: u32,
    /// Extra value that travels with the input; zero.
    pub extra_info: usize,
}

/// The descriptor of `event`.
pub open spec fn spec_descriptor(event: SyntheticKeyEvent) -> KeyboardInput {
    KeyboardInput {
        virtual_key: event.key,
        scan_code: 0,
        flags: if event.direction == Direction::Up {
            KEY_UP_FLAG
        } else {
            0
        },
        time: 0,
        extra_info: 0,
    }
}

/// Builds the descriptor of one synthetic key event: the event's key, the
/// release flag exactly for an `Up`, and zero in every other field.
#[verifier::when_used_as_spec(spec_descriptor)]
pub fn descriptor(event: SyntheticKeyEvent) -> (input: KeyboardInput)
    ensures
        input == spec_descriptor(event),
        input.virtual_key == event.key,
        input.flags == KEY_UP_FLAG <==> event.direction == Direction::Up,
        input.flags == 0 <==> event.direction == Direction::Down,
{
    let flags: u32 = match event.direction {
        Direction::Up => KEY_UP_FLAG,
        Direction::Down => 0,
    };
    KeyboardInput { virtual_key: event.key, scan_code: 0, flags, time: 0, extra_info: 0 }
}

/// Builds the batch that the host submits for one synthetic key event: the
/// descriptor of that event and nothing else. Events are never gathered into
/// a larger batch.
pub fn submission(event: SyntheticKeyEvent) -> (batch: [KeyboardInput; 1])
    ensures
        batch@ == seq![spec_descriptor(event)],
        batch@.len() == EVENTS_PER_SUBMISSION,
{
    [descriptor(event)]
}

/// Whether a submission failed, given the number of events that the
/// operating system reports as inserted: it failed if fewer were inserted
/// than were submitted.
pub open spec fn spec_submission_failed(inserted: u32) -> bool {
    inserted < EVENTS_PER_SUBMISSION
}

/// Whether a submission failed, given the number of events that the
/// operating system reports as inserted. The host logs a failure; it neither
/// retries the submission nor reports the failure to the engine's caller.
#[verifier::when_used_as_spec(spec_submission_failed)]
pub fn submission_failed(inserted: u32) -> (failed: bool)
    ensures
        failed == spec_submission_failed(inserted),
        failed <==> inserted == 0,
{
    inserted < EVENTS_PER_SUBMISSION
}

} // verus!
