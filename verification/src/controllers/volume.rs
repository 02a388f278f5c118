//! The master volume as the library carries it.

use vstd::prelude::*;

verus! {

/// A master volume level, 0.0 for mute up to 1.0 for full volume, held as the
/// bit pattern of its IEEE 754 single-precision value. The library never
/// computes with a level: it hands the level from whoever measured it to
/// whoever applies it, unchanged.
#[derive(Debug, Clone, Copy, PartialEq, Eq, Structural)]
pub struct VolumeLevel {
    pub bits: u32,
}

impl VolumeLevel {
    /// The level with the given bit pattern.
    pub fn from_bits(bits: u32) -> (level: VolumeLevel)
        ensures
            level.bits == bits,
    {
        VolumeLevel { bits }
    }

    /// The level's bit pattern.
    pub fn to_bits(&self) -> (bits: u32)
        ensures
            bits == self.bits,
    {
        self.bits
    }
}

} // verus!
