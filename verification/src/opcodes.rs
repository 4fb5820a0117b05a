//! The 256-entry opcode dispatch table: byte length, base cycle cost and
//! addressing mode of every opcode byte, official and unofficial alike.

use vstd::prelude::*;

use crate::cpu::AddressingMode;

verus! {

/// Static metadata of one opcode byte.
pub struct OpCode {
    pub code: u8,
    pub len: u8,
    pub cycles: u8,
    pub mode: AddressingMode,
}

/// The canonical NES opcode matrix: byte length, base cycles and
/// addressing mode of every opcode byte.
pub open spec fn spec_opcode_entry(code: u8) -> OpCode {
    match code {
        0x0a | 0x2a | 0x4a | 0x6a => OpCode { code: code, len: 1, cycles: 2, mode: AddressingMode::Accumulator },
        0x02 | 0x12 | 0x18 | 0x1a | 0x22 | 0x32 | 0x38 | 0x3a | 0x42 | 0x52 | 0x58 | 0x5a | 0x62 | 0x72 | 0x78 | 0x7a | 0x88 | 0x8a | 0x92 | 0x98 | 0x9a | 0xa8 | 0xaa | 0xb2 | 0xb8 | 0xba | 0xc8 | 0xca | 0xd2 | 0xd8 | 0xda | 0xe8 | 0xea | 0xf2 | 0xf8 | 0xfa => OpCode { code: code, len: 1, cycles: 2, mode: AddressingMode::NoneAddressing },
        0x08 | 0x48 => OpCode { code: code, len: 1, cycles: 3, mode: AddressingMode::NoneAddressing },
        0x28 | 0x68 => OpCode { code: code, len: 1, cycles: 4, mode: AddressingMode::NoneAddressing },
        0x40 | 0x60 => OpCode { code: code, len: 1, cycles: 6, mode: AddressingMode::NoneAddressing },
        0x00 => OpCode { code: code, len: 1, cycles: 7, mode: AddressingMode::NoneAddressing },
        0x09 | 0x0b | 0x29 | 0x2b | 0x49 | 0x4b | 0x69 | 0x6b | 0x80 | 0x82 | 0x89 | 0x8b | 0xa0 | 0xa2 | 0xa9 | 0xab | 0xc0 | 0xc2 | 0xc9 | 0xcb | 0xe0 | 0xe2 | 0xe9 | 0xeb => OpCode { code: code, len: 2, cycles: 2, mode: AddressingMode::Immediate },
        0x10 | 0x30 | 0x50 | 0x70 | 0x90 | 0xb0 | 0xd0 | 0xf0 => OpCode { code: code, len: 2, cycles: 2, mode: AddressingMode::NoneAddressing },
        0x04 | 0x05 | 0x24 | 0x25 | 0x44 | 0x45 | 0x64 | 0x65 | 0x84 | 0x85 | 0x86 | 0x87 | 0xa4 | 0xa5 | 0xa6 | 0xa7 | 0xc4 | 0xc5 | 0xe4 | 0xe5 => OpCode { code: code, len: 2, cycles: 3, mode: AddressingMode::ZeroPage },
        0x14 | 0x15 | 0x34 | 0x35 | 0x54 | 0x55 | 0x74 | 0x75 | 0x94 | 0x95 | 0xb4 | 0xb5 | 0xd4 | 0xd5 | 0xf4 | 0xf5 => OpCode { code: code, len: 2, cycles: 4, mode: AddressingMode::ZeroPageX },
        0x96 | 0x97 | 0xb6 | 0xb7 => OpCode { code: code, len: 2, cycles: 4, mode: AddressingMode::ZeroPageY },
        0x11 | 0x31 | 0x51 | 0x71 | 0xb1 | 0xb3 | 0xd1 | 0xf1 => OpCode { code: code, len: 2, cycles: 5, mode: AddressingMode::IndirectY },
        0x06 | 0x07 | 0x26 | 0x27 | 0x46 | 0x47 | 0x66 | 0x67 | 0xc6 | 0xc7 | 0xe6 | 0xe7 => OpCode { code: code, len: 2, cycles: 5, mode: AddressingMode::ZeroPage },
        0x01 | 0x21 | 0x41 | 0x61 | 0x81 | 0x83 | 0xa1 | 0xa3 | 0xc1 | 0xe1 => OpCode { code: code, len: 2, cycles: 6, mode: AddressingMode::IndirectX },
        0x91 | 0x93 => OpCode { code: code, len: 2, cycles: 6, mode: AddressingMode::IndirectY },
        0x16 | 0x17 | 0x36 | 0x37 | 0x56 | 0x57 | 0x76 | 0x77 | 0xd6 | 0xd7 | 0xf6 | 0xf7 => OpCode { code: code, len: 2, cycles: 6, mode: AddressingMode::ZeroPageX },
        0x03 | 0x23 | 0x43 | 0x63 | 0xc3 | 0xe3 => OpCode { code: code, len: 2, cycles: 8, mode: AddressingMode::IndirectX },
        0x13 | 0x33 | 0x53 | 0x73 | 0xd3 | 0xf3 => OpCode { code: code, len: 2, cycles: 8, mode: AddressingMode::IndirectY },
        0x4c => OpCode { code: code, len: 3, cycles: 3, mode: AddressingMode::Absolute },
        0x0c | 0x0d | 0x2c | 0x2d | 0x4d | 0x6d | 0x8c | 0x8d | 0x8e | 0x8f | 0xac | 0xad | 0xae | 0xaf | 0xcc | 0xcd | 0xec | 0xed => OpCode { code: code, len: 3, cycles: 4, mode: AddressingMode::Absolute },
        0x1c | 0x1d | 0x3c | 0x3d | 0x5c | 0x5d | 0x7c | 0x7d | 0xbc | 0xbd | 0xdc | 0xdd | 0xfc | 0xfd => OpCode { code: code, len: 3, cycles: 4, mode: AddressingMode::AbsoluteX },
        0x19 | 0x39 | 0x59 | 0x79 | 0xb9 | 0xbb | 0xbe | 0xbf | 0xd9 | 0xf9 => OpCode { code: code, len: 3, cycles: 4, mode: AddressingMode::AbsoluteY },
        0x9c | 0x9d => OpCode { code: code, len: 3, cycles: 5, mode: AddressingMode::AbsoluteX },
        0x99 | 0x9b | 0x9e | 0x9f => OpCode { code: code, len: 3, cycles: 5, mode: AddressingMode::AbsoluteY },
        0x6c => OpCode { code: code, len: 3, cycles: 5, mode: AddressingMode::NoneAddressing },
        0x0e | 0x0f | 0x2e | 0x2f | 0x4e | 0x4f | 0x6e | 0x6f | 0xce | 0xcf | 0xee | 0xef => OpCode { code: code, len: 3, cycles: 6, mode: AddressingMode::Absolute },
        0x20 => OpCode { code: code, len: 3, cycles: 6, mode: AddressingMode::NoneAddressing },
        0x1e | 0x1f | 0x3e | 0x3f | 0x5e | 0x5f | 0x7e | 0x7f | 0xde | 0xdf | 0xfe | 0xff => OpCode { code: code, len: 3, cycles: 7, mode: AddressingMode::AbsoluteX },
        0x1b | 0x3b | 0x5b | 0x7b | 0xdb | 0xfb => OpCode { code: code, len: 3, cycles: 7, mode: AddressingMode::AbsoluteY },
    }
}

/// Metadata of `code`, as [`spec_opcode_entry`] fixes it. The run loop
/// uses `len` to advance the program counter past the operand and
/// `cycles` to clock the bus.
pub fn opcode_entry(code: u8) -> (r: OpCode)
    ensures
        r == spec_opcode_entry(code),
        r.code == code,
        1 <= r.len <= 3,
        1 <= r.cycles <= 8,
{
    match code {
        0x0a | 0x2a | 0x4a | 0x6a => OpCode { code: code, len: 1, cycles: 2, mode: AddressingMode::Accumulator },
        0x02 | 0x12 | 0x18 | 0x1a | 0x22 | 0x32 | 0x38 | 0x3a | 0x42 | 0x52 | 0x58 | 0x5a | 0x62 | 0x72 | 0x78 | 0x7a | 0x88 | 0x8a | 0x92 | 0x98 | 0x9a | 0xa8 | 0xaa | 0xb2 | 0xb8 | 0xba | 0xc8 | 0xca | 0xd2 | 0xd8 | 0xda | 0xe8 | 0xea | 0xf2 | 0xf8 | 0xfa => OpCode { code: code, len: 1, cycles: 2, mode: AddressingMode::NoneAddressing },
        0x08 | 0x48 => OpCode { code: code, len: 1, cycles: 3, mode: AddressingMode::NoneAddressing },
        0x28 | 0x68 => OpCode { code: code, len: 1, cycles: 4, mode: AddressingMode::NoneAddressing },
        0x40 | 0x60 => OpCode { code: code, len: 1, cycles: 6, mode: AddressingMode::NoneAddressing },
        0x00 => OpCode { code: code, len: 1, cycles: 7, mode: AddressingMode::NoneAddressing },
        0x09 | 0x0b | 0x29 | 0x2b | 0x49 | 0x4b | 0x69 | 0x6b | 0x80 | 0x82 | 0x89 | 0x8b | 0xa0 | 0xa2 | 0xa9 | 0xab | 0xc0 | 0xc2 | 0xc9 | 0xcb | 0xe0 | 0xe2 | 0xe9 | 0xeb => OpCode { code: code, len: 2, cycles: 2, mode: AddressingMode::Immediate },
        0x10 | 0x30 | 0x50 | 0x70 | 0x90 | 0xb0 | 0xd0 | 0xf0 => OpCode { code: code, len: 2, cycles: 2, mode: AddressingMode::NoneAddressing },
        0x04 | 0x05 | 0x24 | 0x25 | 0x44 | 0x45 | 0x64 | 0x65 | 0x84 | 0x85 | 0x86 | 0x87 | 0xa4 | 0xa5 | 0xa6 | 0xa7 | 0xc4 | 0xc5 | 0xe4 | 0xe5 => OpCode { code: code, len: 2, cycles: 3, mode: AddressingMode::ZeroPage },
        0x14 | 0x15 | 0x34 | 0x35 | 0x54 | 0x55 | 0x74 | 0x75 | 0x94 | 0x95 | 0xb4 | 0xb5 | 0xd4 | 0xd5 | 0xf4 | 0xf5 => OpCode { code: code, len: 2, cycles: 4, mode: AddressingMode::ZeroPageX },
        0x96 | 0x97 | 0xb6 | 0xb7 => OpCode { code: code, len: 2, cycles: 4, mode: AddressingMode::ZeroPageY },
        0x11 | 0x31 | 0x51 | 0x71 | 0xb1 | 0xb3 | 0xd1 | 0xf1 => OpCode { code: code, len: 2, cycles: 5, mode: AddressingMode::IndirectY },
        0x06 | 0x07 | 0x26 | 0x27 | 0x46 | 0x47 | 0x66 | 0x67 | 0xc6 | 0xc7 | 0xe6 | 0xe7 => OpCode { code: code, len: 2, cycles: 5, mode: AddressingMode::ZeroPage },
        0x01 | 0x21 | 0x41 | 0x61 | 0x81 | 0x83 | 0xa1 | 0xa3 | 0xc1 | 0xe1 => OpCode { code: code, len: 2, cycles: 6, mode: AddressingMode::IndirectX },
        0x91 | 0x93 => OpCode { code: code, len: 2, cycles: 6, mode: AddressingMode::IndirectY },
        0x16 | 0x17 | 0x36 | 0x37 | 0x56 | 0x57 | 0x76 | 0x77 | 0xd6 | 0xd7 | 0xf6 | 0xf7 => OpCode { code: code, len: 2, cycles: 6, mode: AddressingMode::ZeroPageX },
        0x03 | 0x23 | 0x43 | 0x63 | 0xc3 | 0xe3 => OpCode { code: code, len: 2, cycles: 8, mode: AddressingMode::IndirectX },
        0x13 | 0x33 | 0x53 | 0x73 | 0xd3 | 0xf3 => OpCode { code: code, len: 2, cycles: 8, mode: AddressingMode::IndirectY },
        0x4c => OpCode { code: code, len: 3, cycles: 3, mode: AddressingMode::Absolute },
        0x0c | 0x0d | 0x2c | 0x2d | 0x4d | 0x6d | 0x8c | 0x8d | 0x8e | 0x8f | 0xac | 0xad | 0xae | 0xaf | 0xcc | 0xcd | 0xec | 0xed => OpCode { code: code, len: 3, cycles: 4, mode: AddressingMode::Absolute },
        0x1c | 0x1d | 0x3c | 0x3d | 0x5c | 0x5d | 0x7c | 0x7d | 0xbc | 0xbd | 0xdc | 0xdd | 0xfc | 0xfd => OpCode { code: code, len: 3, cycles: 4, mode: AddressingMode::AbsoluteX },
        0x19 | 0x39 | 0x59 | 0x79 | 0xb9 | 0xbb | 0xbe | 0xbf | 0xd9 | 0xf9 => OpCode { code: code, len: 3, cycles: 4, mode: AddressingMode::AbsoluteY },
        0x9c | 0x9d => OpCode { code: code, len: 3, cycles: 5, mode: AddressingMode::AbsoluteX },
        0x99 | 0x9b | 0x9e | 0x9f => OpCode { code: code, len: 3, cycles: 5, mode: AddressingMode::AbsoluteY },
        0x6c => OpCode { code: code, len: 3, cycles: 5, mode: AddressingMode::NoneAddressing },
        0x0e | 0x0f | 0x2e | 0x2f | 0x4e | 0x4f | 0x6e | 0x6f | 0xce | 0xcf | 0xee | 0xef => OpCode { code: code, len: 3, cycles: 6, mode: AddressingMode::Absolute },
        0x20 => OpCode { code: code, len: 3, cycles: 6, mode: AddressingMode::NoneAddressing },
        0x1e | 0x1f | 0x3e | 0x3f | 0x5e | 0x5f | 0x7e | 0x7f | 0xde | 0xdf | 0xfe | 0xff => OpCode { code: code, len: 3, cycles: 7, mode: AddressingMode::AbsoluteX },
        0x1b | 0x3b | 0x5b | 0x7b | 0xdb | 0xfb => OpCode { code: code, len: 3, cycles: 7, mode: AddressingMode::AbsoluteY },
    }
}

} // verus!
