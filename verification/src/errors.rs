//! Fatal conditions the emulator core reports instead of carrying on:
//! address-space programming errors and the one opcode whose hardware
//! behaviour is too unstable to model.

use vstd::prelude::*;

verus! {

/// An abort condition, carrying the offending address or opcode byte.
#[derive(Debug, PartialEq, Eq, Structural, Clone, Copy)]
pub enum EmuError {
    /// A read from a write-only PPU register.
    ReadWriteOnly(u16),
    /// A write to the read-only PPUSTATUS register.
    WriteReadOnly(u16),
    /// A write into PRG ROM.
    WriteToRom(u16),
    /// A PPU access to the unusable `0x3000..=0x3EFF` window, or to
    /// four-screen VRAM this core does not allocate.
    UnusableAddress(u16),
    /// The XAA opcode, whose hardware behaviour is unstable.
    UnstableOpcode(u8),
    /// The run loop's instruction budget ran out.
    CycleLimit,
}

} // verus!
