//! Key identifiers: the two meta keys, the two control keys, and the side
//! that relates them.

use vstd::prelude::*;

verus! {

/// Virtual-key code of the left meta key.
pub const LEFT_META: u32 = 0x5B;

/// Virtual-key code of the right meta key.
pub const RIGHT_META: u32 = 0x5C;

/// Virtual-key code of the left control key.
pub const LEFT_CONTROL: u16 = 0xA2;

/// Virtual-key code of the right control key.
pub const RIGHT_CONTROL: u16 = 0xA3;

/// One of the two physical instances of a modifier key.
#[derive(Clone, Copy, Debug, PartialEq, Eq, Hash, Structural)]
pub enum ModifierSide {
    Left,
    Right,
}

impl ModifierSide {
    /// The opposite side.
    pub open spec fn spec_other(self) -> ModifierSide {
        match self {
            ModifierSide::Left => ModifierSide::Right,
            ModifierSide::Right => ModifierSide::Left,
        }
    }

    /// The code of the meta key on this side.
    pub open spec fn spec_meta_key(self) -> u32 {
        match self {
            ModifierSide::Left => LEFT_META,
            ModifierSide::Right => RIGHT_META,
        }
    }

    /// The code of the control key on this side.
    pub open spec fn spec_control_key(self) -> u16 {
        match self {
            ModifierSide::Left => LEFT_CONTROL,
            ModifierSide::Right => RIGHT_CONTROL,
        }
    }

    /// The opposite side.
    #[verifier::when_used_as_spec(spec_other)]
    pub fn other(self) -> (side: ModifierSide)
        ensures
            side == self.spec_other(),
    {
        match self {
            ModifierSide::Left => ModifierSide::Right,
            ModifierSide::Right => ModifierSide::Left,
        }
    }

    /// The code of the meta key on this side.
    #[verifier::when_used_as_spec(spec_meta_key)]
    pub fn meta_key(self) -> (key: u32)
        ensures
            key == self.spec_meta_key(),
    {
        match self {
            ModifierSide::Left => LEFT_META,
            ModifierSide::Right => RIGHT_META,
        }
    }

    /// The code of the control key on this side: the key that a meta key of
    /// the same side is remapped to.
    #[verifier::when_used_as_spec(spec_control_key)]
    pub fn control_key(self) -> (key: u16)
        ensures
            key == self.spec_control_key(),
    {
        match self {
            ModifierSide::Left => LEFT_CONTROL,
            ModifierSide::Right => RIGHT_CONTROL,
        }
    }
}

/// The side whose meta key has the code `key`, if `key` is a meta key at all.
pub open spec fn spec_meta_side(key: u32) -> Option<ModifierSide> {
    if key == LEFT_META {
        Some(ModifierSide::Left)
    } else if key == RIGHT_META {
        Some(ModifierSide::Right)
    } else {
        None
    }
}

/// Tells which meta key `key` identifies: `Some` of its side for the two meta
/// keys, `None` for every other key.
#[verifier::when_used_as_spec(spec_meta_side)]
pub fn meta_side(key: u32) -> (side: Option<ModifierSide>)
    ensures
        side == spec_meta_side(key),
{
    if key == LEFT_META {
        Some(ModifierSide::Left)
    } else if key == RIGHT_META {
        Some(ModifierSide::Right)
    } else {
        None
    }
}

} // verus!
