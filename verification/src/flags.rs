//! Session switches, kept as bits of one byte.

use vstd::prelude::*;

verus! {

pub type FlagStore = u8;

#[derive(Clone, Copy, Debug, PartialEq, Eq, Structural)]
pub enum Flag {
    /// The player may set a piece aside.
    PieceHoldEnabled,
}

/// The bit that stands for `flag`.
pub open spec fn flag_bit(flag: Flag) -> u8 {
    match flag {
        Flag::PieceHoldEnabled => 1u8,
    }
}

/// `flag` is set in `flags`.
pub open spec fn flag_set(flags: FlagStore, flag: Flag) -> bool {
    flags & flag_bit(flag) != 0
}

fn bit(flag: Flag) -> (b: u8)
    ensures
        b == flag_bit(flag),
{
    match flag {
        Flag::PieceHoldEnabled => 1u8,
    }
}

/// Sets `flag` where `state` holds. A flag that is set stays set.
pub fn switch(flags: &mut FlagStore, flag: Flag, state: bool)
    ensures
        *final(flags) == if state {
            *old(flags) | flag_bit(flag)
        } else {
            *old(flags)
        },
        flag_set(*final(flags), flag) == (state || flag_set(*old(flags), flag)),
{
    let b: u8 = bit(flag);
    let before: u8 = *flags;
    if state {
        *flags = before | b;
        assert((before | b) & b != 0 || b == 0) by (bit_vector);
    }
}

/// Whether `flag` is set.
pub fn check(flags: &FlagStore, flag: Flag) -> (on: bool)
    ensures
        on == flag_set(*flags, flag),
{
    (*flags & bit(flag)) != 0
}

} // verus!
