//! The boundary with the host's keyboard observer: decoding what the
//! operating system delivers, answering it, and keeping the observer's
//! registration.

use vstd::prelude::*;
use crate::engine::spec_outcome;
use crate::event::{Direction, Disposition, RawKeyEvent, SyntheticKeyEvent};
use crate::keys::spec_meta_side;
use crate::state::ModifierState;

verus! {

/// The delivery code that announces a key transition. Only a delivery with
/// this code carries key data.
pub const ACTION_CODE: i32 = 0;

/// The message identifier of a key going down.
pub const KEY_DOWN_MESSAGE: usize = 0x0100;

/// The message identifier of a key going up.
pub const KEY_UP_MESSAGE: usize = 0x0101;

/// The message identifier of a key going down as a system key: while the
/// alternate key is held, or for a key that opens a menu by itself.
pub const SYSTEM_KEY_DOWN_MESSAGE: usize = 0x0104;

/// The message identifier of a key going up as a system key.
pub const SYSTEM_KEY_UP_MESSAGE: usize = 0x0105;

/// The answer that tells the operating system that an event is fully
/// handled.
pub const HANDLED: isize = 1;

/// Whether a delivery with this code announces a key transition.
pub open spec fn spec_is_action(code: i32) -> bool {
    code == ACTION_CODE
}

/// Whether a message identifier announces a key transition: it is one of
/// the two key-down and the two key-up messages.
pub open spec fn spec_is_transition(message: usize) -> bool {
    message == KEY_DOWN_MESSAGE || message == KEY_UP_MESSAGE || message
        == SYSTEM_KEY_DOWN_MESSAGE || message == SYSTEM_KEY_UP_MESSAGE
}

/// The direction that a message identifier stands for, if it stands for one:
/// `Down` for the two key-down messages, `Up` for the two key-up messages.
pub open spec fn spec_direction_of(message: usize) -> Option<Direction> {
    if message == KEY_DOWN_MESSAGE || message == SYSTEM_KEY_DOWN_MESSAGE {
        Some(Direction::Down)
    } else if message == KEY_UP_MESSAGE || message == SYSTEM_KEY_UP_MESSAGE {
        Some(Direction::Up)
    } else {
        None
    }
}

/// The key transition that a delivery announces, if it announces one.
pub open spec fn spec_decode(code: i32, message: usize, key: u32) -> Option<RawKeyEvent> {
    if code == ACTION_CODE {
        match spec_direction_of(message) {
            Some(direction) => Some(RawKeyEvent { key, direction }),
            None => None,
        }
    } else {
        None
    }
}

/// The answer to the operating system for a disposition, where the library
/// has one.
pub open spec fn spec_reply(disposition: Disposition) -> Option<isize> {
    match disposition {
        Disposition::Suppress => Some(HANDLED),
        Disposition::PassThrough => None,
    }
}

/// Whether a delivery with this code announces a key transition. The host
/// reads the key data of a delivery only if it does.
#[verifier::when_used_as_spec(spec_is_action)]
pub fn is_action(code: i32) -> (action: bool)
    ensures
        action == (code == ACTION_CODE),
{
    code == ACTION_CODE
}

/// Tells the direction of a transition from its message identifier: `Down`
/// for a key-down message, plain or system; `Up` for a key-up message, plain
/// or system; `None` for any other message.
#[verifier::when_used_as_spec(spec_direction_of)]
pub fn direction_of(message: usize) -> (direction: Option<Direction>)
    ensures
        direction == spec_direction_of(message),
        direction == Some(Direction::Down) <==> message == KEY_DOWN_MESSAGE || message
            == SYSTEM_KEY_DOWN_MESSAGE,
        direction == Some(Direction::Up) <==> message == KEY_UP_MESSAGE || message
            == SYSTEM_KEY_UP_MESSAGE,
        direction is Some <==> spec_is_transition(message),
{
    if message == KEY_DOWN_MESSAGE || message == SYSTEM_KEY_DOWN_MESSAGE {
        Some(Direction::Down)
    } else if message == KEY_UP_MESSAGE || message == SYSTEM_KEY_UP_MESSAGE {
        Some(Direction::Up)
    } else {
        None
    }
}

/// Turns one delivery into a raw key event. The result is `Some` exactly if
/// the code announces a key transition and the message is one of the four
/// key-transition messages; the event then holds `key` and the direction of
/// the message. Every other delivery gives `None`: it is not for the engine.
#[verifier::when_used_as_spec(spec_decode)]
pub fn decode(code: i32, message: usize, key: u32) -> (delivery: Option<RawKeyEvent>)
    ensures
        delivery == spec_decode(code, message, key),
        delivery is Some <==> code == ACTION_CODE && (message == KEY_DOWN_MESSAGE || message
            == KEY_UP_MESSAGE || message == SYSTEM_KEY_DOWN_MESSAGE || message
            == SYSTEM_KEY_UP_MESSAGE),
        delivery matches Some(event) ==> event.key == key && Some(event.direction)
            == spec_direction_of(message),
{
    if is_action(code) {
        match direction_of(message) {
            Some(direction) => Some(RawKeyEvent { key, direction }),
            None => None,
        }
    } else {
        None
    }
}

/// The answer to give the operating system: `Some(HANDLED)` for a suppressed
/// event; `None` for one that passes through, whose answer is that of the
/// next observer.
#[verifier::when_used_as_spec(spec_reply)]
pub fn reply(disposition: Disposition) -> (answer: Option<isize>)
    ensures
        answer == spec_reply(disposition),
        disposition == Disposition::Suppress ==> answer == Some(HANDLED),
        disposition == Disposition::PassThrough ==> answer is None,
{
    match disposition {
        Disposition::Suppress => Some(HANDLED),
        Disposition::PassThrough => None,
    }
}

/// What a delivery of a key transition comes to, for each of the four
/// key-transition messages, any key and any state of the tracker: it is
/// decoded to an event of that key in the message's direction; the answer to
/// the operating system is `HANDLED` exactly if the key is a meta key or a
/// meta key is held, and is otherwise left to the next observer; and an
/// event is injected exactly for a meta key: the control key of the same
/// side, in the direction of the delivery.
pub proof fn lemma_transition_answer(state: ModifierState, message: usize, key: u32)
    requires
        spec_is_transition(message),
    ensures
        spec_decode(ACTION_CODE, message, key) matches Some(event) && {
            let outcome = spec_outcome(state, event);
            &&& event.key == key
            &&& Some(event.direction) == spec_direction_of(message)
            &&& spec_reply(outcome.disposition) == Some(HANDLED) <==> spec_meta_side(key) is Some
                || state.spec_is_any_held()
            &&& spec_reply(outcome.disposition) is None <==> spec_meta_side(key) is None
                && !state.spec_is_any_held()
            &&& outcome.injection is Some <==> spec_meta_side(key) is Some
            &&& spec_meta_side(key) matches Some(side) ==> outcome.injection == Some(
                SyntheticKeyEvent { key: side.spec_control_key(), direction: event.direction },
            )
        },
{
}

/// Why the observer could not be registered.
#[derive(Clone, Copy, Debug, PartialEq, Eq, Hash, Structural)]
pub enum InstallError {
    /// The operating system refused the registration.
    Refused,
}

impl InstallError {
    /// The message to report for this error.
    pub fn message(&self) -> (text: String)
        ensures
            text@ == "Failed to install keyboard hook"@,
    {
        "Failed to install keyboard hook".to_owned()
    }
}

/// The registration of the keyboard observer: the handle that the operating
/// system gave for it, while it is registered. Its view is that handle.
#[derive(Debug)]
pub struct HookSlot {
    handle: Option<isize>,
}

impl View for HookSlot {
    type V = Option<isize>;

    closed spec fn view(&self) -> Option<isize> {
        self.handle
    }
}

impl HookSlot {
    /// A slot with nothing registered.
    pub fn new() -> (slot: HookSlot)
        ensures
            slot@ is None,
    {
        HookSlot { handle: None }
    }

    /// Whether an observer is registered.
    pub fn is_installed(&self) -> (installed: bool)
        ensures
            installed == (self@ is Some),
    {
        self.handle.is_some()
    }

    /// Records how an attempt to register the observer ended. `attempt` is
    /// the handle that the operating system returned, or `None` if it
    /// refused. A handle is kept, in place of any earlier one; a refusal is
    /// an error and leaves the slot as it was.
    pub fn record_install(&mut self, attempt: Option<isize>) -> (result: Result<(), InstallError>)
        ensures
            attempt is Some ==> result is Ok && final(self)@ == attempt,
            attempt is None ==> result == Err::<(), InstallError>(InstallError::Refused)
                && final(self)@ == old(self)@,
    {
        match attempt {
            Some(handle) => {
                self.handle = Some(handle);
                Ok(())
            },
            None => Err(InstallError::Refused),
        }
    }

    /// Empties the slot and returns the handle that the host has to release,
    /// if one was registered. On an empty slot this does nothing and returns
    /// `None`, so that two removals in a row release the handle once.
    pub fn take(&mut self) -> (handle: Option<isize>)
        ensures
            handle == old(self)@,
            final(self)@ is None,
            old(self)@ is None ==> handle is None && final(self)@ == old(self)@,
    {
        let handle = self.handle;
        self.handle = None;
        handle
    }
}

} // verus!
