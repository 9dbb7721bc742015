use vstd::prelude::*;

use crate::addressing::AddressingMode;
use crate::flags::CpuFlags;

verus! {

/// One row of the decode table: an opcode byte, its mnemonic, addressing
/// mode, instruction length in bytes, and base cycle cost.
pub struct OperationCode {
    pub code: u8,
    pub mnemonic: &'static str,
    pub addressing_mode: AddressingMode,
    pub bytes: u8,
    pub cycles: u8,
}

impl OperationCode {
    pub fn new(code: u8, mnemonic: &'static str, addressing_mode: AddressingMode, bytes: u8, cycles: u8) -> (r:
        OperationCode)
        ensures
            r.code == code,
            r.mnemonic == mnemonic,
            r.addressing_mode == addressing_mode,
            r.bytes == bytes,
            r.cycles == cycles,
    {
        OperationCode { code, mnemonic, addressing_mode, bytes, cycles }
    }
}

/// The decode table: addressing mode, byte length and base cycles of every
/// defined opcode; undefined bytes decode to nothing and trap.
pub open spec fn spec_decode(code: u8) -> Option<(AddressingMode, u8, u8)> {
    match code {
        0x69 => Some((AddressingMode::Immediate, 2u8, 2u8)),
        0x65 => Some((AddressingMode::ZeroPage, 2u8, 3u8)),
        0x75 => Some((AddressingMode::ZeroPageX, 2u8, 4u8)),
        0x6d => Some((AddressingMode::Absolute, 3u8, 4u8)),
        0x7d => Some((AddressingMode::AbsoluteX, 3u8, 4u8)),
        0x79 => Some((AddressingMode::AbsoluteY, 3u8, 4u8)),
        0x61 => Some((AddressingMode::IndirectX, 2u8, 6u8)),
        0x71 => Some((AddressingMode::IndirectY, 2u8, 5u8)),
        0x29 => Some((AddressingMode::Immediate, 2u8, 2u8)),
        0x25 => Some((AddressingMode::ZeroPage, 2u8, 3u8)),
        0x35 => Some((AddressingMode::ZeroPageX, 2u8, 4u8)),
        0x2d => Some((AddressingMode::Absolute, 3u8, 4u8)),
        0x3d => Some((AddressingMode::AbsoluteX, 3u8, 4u8)),
        0x39 => Some((AddressingMode::AbsoluteY, 3u8, 4u8)),
        0x21 => Some((AddressingMode::IndirectX, 2u8, 6u8)),
        0x31 => Some((AddressingMode::IndirectY, 2u8, 5u8)),
        0x0a => Some((AddressingMode::Accumulator, 1u8, 2u8)),
        0x06 => Some((AddressingMode::ZeroPage, 2u8, 5u8)),
        0x16 => Some((AddressingMode::ZeroPageX, 2u8, 6u8)),
        0x0e => Some((AddressingMode::Absolute, 3u8, 6u8)),
        0x1e => Some((AddressingMode::AbsoluteX, 3u8, 7u8)),
        0x90 => Some((AddressingMode::Relative, 2u8, 2u8)),
        0xb0 => Some((AddressingMode::Relative, 2u8, 2u8)),
        0xf0 => Some((AddressingMode::Relative, 2u8, 2u8)),
        0x24 => Some((AddressingMode::ZeroPage, 2u8, 3u8)),
        0x2c => Some((AddressingMode::Absolute, 3u8, 4u8)),
        0x30 => Some((AddressingMode::Relative, 2u8, 2u8)),
        0xd0 => Some((AddressingMode::Relative, 2u8, 2u8)),
        0x10 => Some((AddressingMode::Relative, 2u8, 2u8)),
        0x00 => Some((AddressingMode::Implicit, 1u8, 7u8)),
        0x50 => Some((AddressingMode::Relative, 2u8, 2u8)),
        0x70 => Some((AddressingMode::Relative, 2u8, 2u8)),
        0x18 => Some((AddressingMode::Implicit, 1u8, 2u8)),
        0xd8 => Some((AddressingMode::Implicit, 1u8, 2u8)),
        0x58 => Some((AddressingMode::Implicit, 1u8, 2u8)),
        0xb8 => Some((AddressingMode::Implicit, 1u8, 2u8)),
        0xc9 => Some((AddressingMode::Immediate, 2u8, 2u8)),
        0xc5 => Some((AddressingMode::ZeroPage, 2u8, 3u8)),
        0xd5 => Some((AddressingMode::ZeroPageX, 2u8, 4u8)),
        0xcd => Some((AddressingMode::Absolute, 3u8, 4u8)),
        0xdd => Some((AddressingMode::AbsoluteX, 3u8, 4u8)),
        0xd9 => Some((AddressingMode::AbsoluteY, 3u8, 4u8)),
        0xc1 => Some((AddressingMode::IndirectX, 2u8, 6u8)),
        0xd1 => Some((AddressingMode::IndirectY, 2u8, 5u8)),
        0xe0 => Some((AddressingMode::Immediate, 2u8, 2u8)),
        0xe4 => Some((AddressingMode::ZeroPage, 2u8, 3u8)),
        0xec => Some((AddressingMode::Absolute, 3u8, 4u8)),
        0xc0 => Some((AddressingMode::Immediate, 2u8, 2u8)),
        0xc4 => Some((AddressingMode::ZeroPage, 2u8, 3u8)),
        0xcc => Some((AddressingMode::Absolute, 3u8, 4u8)),
        0xc6 => Some((AddressingMode::ZeroPage, 2u8, 5u8)),
        0xd6 => Some((AddressingMode::ZeroPageX, 2u8, 6u8)),
        0xce => Some((AddressingMode::Absolute, 3u8, 6u8)),
        0xde => Some((AddressingMode::AbsoluteX, 3u8, 7u8)),
        0xca => Some((AddressingMode::Implicit, 1u8, 2u8)),
        0x88 => Some((AddressingMode::Implicit, 1u8, 2u8)),
        0x49 => Some((AddressingMode::Immediate, 2u8, 2u8)),
        0x45 => Some((AddressingMode::ZeroPage, 2u8, 3u8)),
        0x55 => Some((AddressingMode::ZeroPageX, 2u8, 4u8)),
        0x4d => Some((AddressingMode::Absolute, 3u8, 4u8)),
        0x5d => Some((AddressingMode::AbsoluteX, 3u8, 4u8)),
        0x59 => Some((AddressingMode::AbsoluteY, 3u8, 4u8)),
        0x41 => Some((AddressingMode::IndirectX, 2u8, 6u8)),
        0x51 => Some((AddressingMode::IndirectY, 2u8, 5u8)),
        0xe6 => Some((AddressingMode::ZeroPage, 2u8, 5u8)),
        0xf6 => Some((AddressingMode::ZeroPageX, 2u8, 6u8)),
        0xee => Some((AddressingMode::Absolute, 3u8, 6u8)),
        0xfe => Some((AddressingMode::AbsoluteX, 3u8, 7u8)),
        0xe8 => Some((AddressingMode::Implicit, 1u8, 2u8)),
        0xc8 => Some((AddressingMode::Implicit, 1u8, 2u8)),
        0x4c => Some((AddressingMode::Absolute, 3u8, 3u8)),
        0x6c => Some((AddressingMode::Indirect, 3u8, 5u8)),
        0x20 => Some((AddressingMode::Absolute, 3u8, 6u8)),
        0xa9 => Some((AddressingMode::Immediate, 2u8, 2u8)),
        0xa5 => Some((AddressingMode::ZeroPage, 2u8, 3u8)),
        0xb5 => Some((AddressingMode::ZeroPageX, 2u8, 4u8)),
        0xad => Some((AddressingMode::Absolute, 3u8, 4u8)),
        0xbd => Some((AddressingMode::AbsoluteX, 3u8, 4u8)),
        0xb9 => Some((AddressingMode::AbsoluteY, 3u8, 4u8)),
        0xa1 => Some((AddressingMode::IndirectX, 2u8, 6u8)),
        0xb1 => Some((AddressingMode::IndirectY, 2u8, 5u8)),
        0xa2 => Some((AddressingMode::Immediate, 2u8, 2u8)),
        0xa6 => Some((AddressingMode::ZeroPage, 2u8, 3u8)),
        0xb6 => Some((AddressingMode::ZeroPageY, 2u8, 4u8)),
        0xae => Some((AddressingMode::Absolute, 3u8, 4u8)),
        0xbe => Some((AddressingMode::AbsoluteY, 3u8, 4u8)),
        0xa0 => Some((AddressingMode::Immediate, 2u8, 2u8)),
        0xa4 => Some((AddressingMode::ZeroPage, 2u8, 3u8)),
        0xb4 => Some((AddressingMode::ZeroPageX, 2u8, 4u8)),
        0xac => Some((AddressingMode::Absolute, 3u8, 4u8)),
        0xbc => Some((AddressingMode::AbsoluteX, 3u8, 4u8)),
        0x4a => Some((AddressingMode::Accumulator, 1u8, 2u8)),
        0x46 => Some((AddressingMode::ZeroPage, 2u8, 5u8)),
        0x56 => Some((AddressingMode::ZeroPageX, 2u8, 6u8)),
        0x4e => Some((AddressingMode::Absolute, 3u8, 6u8)),
        0x5e => Some((AddressingMode::AbsoluteX, 3u8, 7u8)),
        0xea => Some((AddressingMode::Implicit, 1u8, 2u8)),
        0x09 => Some((AddressingMode::Immediate, 2u8, 2u8)),
        0x05 => Some((AddressingMode::ZeroPage, 2u8, 3u8)),
        0x15 => Some((AddressingMode::ZeroPageX, 2u8, 4u8)),
        0x0d => Some((AddressingMode::Absolute, 3u8, 4u8)),
        0x1d => Some((AddressingMode::AbsoluteX, 3u8, 4u8)),
        0x19 => Some((AddressingMode::AbsoluteY, 3u8, 4u8)),
        0x01 => Some((AddressingMode::IndirectX, 2u8, 6u8)),
        0x11 => Some((AddressingMode::IndirectY, 2u8, 5u8)),
        0x48 => Some((AddressingMode::Implicit, 1u8, 3u8)),
        0x08 => Some((AddressingMode::Implicit, 1u8, 3u8)),
        0x68 => Some((AddressingMode::Implicit, 1u8, 4u8)),
        0x28 => Some((AddressingMode::Implicit, 1u8, 4u8)),
        0x2a => Some((AddressingMode::Accumulator, 1u8, 2u8)),
        0x26 => Some((AddressingMode::ZeroPage, 2u8, 5u8)),
        0x36 => Some((AddressingMode::ZeroPageX, 2u8, 6u8)),
        0x2e => Some((AddressingMode::Absolute, 3u8, 6u8)),
        0x3e => Some((AddressingMode::AbsoluteX, 3u8, 7u8)),
        0x6a => Some((AddressingMode::Accumulator, 1u8, 2u8)),
        0x66 => Some((AddressingMode::ZeroPage, 2u8, 5u8)),
        0x76 => Some((AddressingMode::ZeroPageX, 2u8, 6u8)),
        0x6e => Some((AddressingMode::Absolute, 3u8, 6u8)),
        0x7e => Some((AddressingMode::AbsoluteX, 3u8, 7u8)),
        0x40 => Some((AddressingMode::Implicit, 1u8, 6u8)),
        0x60 => Some((AddressingMode::Implicit, 1u8, 6u8)),
        0xe9 => Some((AddressingMode::Immediate, 2u8, 2u8)),
        0xe5 => Some((AddressingMode::ZeroPage, 2u8, 3u8)),
        0xf5 => Some((AddressingMode::ZeroPageX, 2u8, 4u8)),
        0xed => Some((AddressingMode::Absolute, 3u8, 4u8)),
        0xfd => Some((AddressingMode::AbsoluteX, 3u8, 4u8)),
        0xf9 => Some((AddressingMode::AbsoluteY, 3u8, 4u8)),
        0xe1 => Some((AddressingMode::IndirectX, 2u8, 6u8)),
        0xf1 => Some((AddressingMode::IndirectY, 2u8, 5u8)),
        0x38 => Some((AddressingMode::Implicit, 1u8, 2u8)),
        0xf8 => Some((AddressingMode::Implicit, 1u8, 2u8)),
        0x78 => Some((AddressingMode::Implicit, 1u8, 2u8)),
        0x85 => Some((AddressingMode::ZeroPage, 2u8, 3u8)),
        0x95 => Some((AddressingMode::ZeroPageX, 2u8, 4u8)),
        0x8d => Some((AddressingMode::Absolute, 3u8, 4u8)),
        0x9d => Some((AddressingMode::AbsoluteX, 3u8, 5u8)),
        0x99 => Some((AddressingMode::AbsoluteY, 3u8, 5u8)),
        0x81 => Some((AddressingMode::IndirectX, 2u8, 6u8)),
        0x91 => Some((AddressingMode::IndirectY, 2u8, 6u8)),
        0x86 => Some((AddressingMode::ZeroPage, 2u8, 3u8)),
        0x96 => Some((AddressingMode::ZeroPageY, 2u8, 4u8)),
        0x8e => Some((AddressingMode::Absolute, 3u8, 4u8)),
        0x84 => Some((AddressingMode::ZeroPage, 2u8, 3u8)),
        0x94 => Some((AddressingMode::ZeroPageX, 2u8, 4u8)),
        0x8c => Some((AddressingMode::Absolute, 3u8, 4u8)),
        0xaa => Some((AddressingMode::Implicit, 1u8, 2u8)),
        0xa8 => Some((AddressingMode::Implicit, 1u8, 2u8)),
        0xba => Some((AddressingMode::Implicit, 1u8, 2u8)),
        0x8a => Some((AddressingMode::Implicit, 1u8, 2u8)),
        0x9a => Some((AddressingMode::Implicit, 1u8, 2u8)),
        0x98 => Some((AddressingMode::Implicit, 1u8, 2u8)),
        _ => None,
    }
}

/// Executable twin of the decode table.
#[verifier::rlimit(100)]
#[verifier::spinoff_prover]
pub fn decode_info(code: u8) -> (r: Option<(AddressingMode, u8, u8)>)
    ensures
        r == spec_decode(code),
        r matches Some(i) ==> 1 <= i.1 <= 3 && 2 <= i.2 <= 7,
{
    match code {
        0x69 => Some((AddressingMode::Immediate, 2u8, 2u8)),
        0x65 => Some((AddressingMode::ZeroPage, 2u8, 3u8)),
        0x75 => Some((AddressingMode::ZeroPageX, 2u8, 4u8)),
        0x6d => Some((AddressingMode::Absolute, 3u8, 4u8)),
        0x7d => Some((AddressingMode::AbsoluteX, 3u8, 4u8)),
        0x79 => Some((AddressingMode::AbsoluteY, 3u8, 4u8)),
        0x61 => Some((AddressingMode::IndirectX, 2u8, 6u8)),
        0x71 => Some((AddressingMode::IndirectY, 2u8, 5u8)),
        0x29 => Some((AddressingMode::Immediate, 2u8, 2u8)),
        0x25 => Some((AddressingMode::ZeroPage, 2u8, 3u8)),
        0x35 => Some((AddressingMode::ZeroPageX, 2u8, 4u8)),
        0x2d => Some((AddressingMode::Absolute, 3u8, 4u8)),
        0x3d => Some((AddressingMode::AbsoluteX, 3u8, 4u8)),
        0x39 => Some((AddressingMode::AbsoluteY, 3u8, 4u8)),
        0x21 => Some((AddressingMode::IndirectX, 2u8, 6u8)),
        0x31 => Some((AddressingMode::IndirectY, 2u8, 5u8)),
        0x0a => Some((AddressingMode::Accumulator, 1u8, 2u8)),
        0x06 => Some((AddressingMode::ZeroPage, 2u8, 5u8)),
        0x16 => Some((AddressingMode::ZeroPageX, 2u8, 6u8)),
        0x0e => Some((AddressingMode::Absolute, 3u8, 6u8)),
        0x1e => Some((AddressingMode::AbsoluteX, 3u8, 7u8)),
        0x90 => Some((AddressingMode::Relative, 2u8, 2u8)),
        0xb0 => Some((AddressingMode::Relative, 2u8, 2u8)),
        0xf0 => Some((AddressingMode::Relative, 2u8, 2u8)),
        0x24 => Some((AddressingMode::ZeroPage, 2u8, 3u8)),
        0x2c => Some((AddressingMode::Absolute, 3u8, 4u8)),
        0x30 => Some((AddressingMode::Relative, 2u8, 2u8)),
        0xd0 => Some((AddressingMode::Relative, 2u8, 2u8)),
        0x10 => Some((AddressingMode::Relative, 2u8, 2u8)),
        0x00 => Some((AddressingMode::Implicit, 1u8, 7u8)),
        0x50 => Some((AddressingMode::Relative, 2u8, 2u8)),
        0x70 => Some((AddressingMode::Relative, 2u8, 2u8)),
        0x18 => Some((AddressingMode::Implicit, 1u8, 2u8)),
        0xd8 => Some((AddressingMode::Implicit, 1u8, 2u8)),
        0x58 => Some((AddressingMode::Implicit, 1u8, 2u8)),
        0xb8 => Some((AddressingMode::Implicit, 1u8, 2u8)),
        0xc9 => Some((AddressingMode::Immediate, 2u8, 2u8)),
        0xc5 => Some((AddressingMode::ZeroPage, 2u8, 3u8)),
        0xd5 => Some((AddressingMode::ZeroPageX, 2u8, 4u8)),
        0xcd => Some((AddressingMode::Absolute, 3u8, 4u8)),
        0xdd => Some((AddressingMode::AbsoluteX, 3u8, 4u8)),
        0xd9 => Some((AddressingMode::AbsoluteY, 3u8, 4u8)),
        0xc1 => Some((AddressingMode::IndirectX, 2u8, 6u8)),
        0xd1 => Some((AddressingMode::IndirectY, 2u8, 5u8)),
        0xe0 => Some((AddressingMode::Immediate, 2u8, 2u8)),
        0xe4 => Some((AddressingMode::ZeroPage, 2u8, 3u8)),
        0xec => Some((AddressingMode::Absolute, 3u8, 4u8)),
        0xc0 => Some((AddressingMode::Immediate, 2u8, 2u8)),
        0xc4 => Some((AddressingMode::ZeroPage, 2u8, 3u8)),
        0xcc => Some((AddressingMode::Absolute, 3u8, 4u8)),
        0xc6 => Some((AddressingMode::ZeroPage, 2u8, 5u8)),
        0xd6 => Some((AddressingMode::ZeroPageX, 2u8, 6u8)),
        0xce => Some((AddressingMode::Absolute, 3u8, 6u8)),
        0xde => Some((AddressingMode::AbsoluteX, 3u8, 7u8)),
        0xca => Some((AddressingMode::Implicit, 1u8, 2u8)),
        0x88 => Some((AddressingMode::Implicit, 1u8, 2u8)),
        0x49 => Some((AddressingMode::Immediate, 2u8, 2u8)),
        0x45 => Some((AddressingMode::ZeroPage, 2u8, 3u8)),
        0x55 => Some((AddressingMode::ZeroPageX, 2u8, 4u8)),
        0x4d => Some((AddressingMode::Absolute, 3u8, 4u8)),
        0x5d => Some((AddressingMode::AbsoluteX, 3u8, 4u8)),
        0x59 => Some((AddressingMode::AbsoluteY, 3u8, 4u8)),
        0x41 => Some((AddressingMode::IndirectX, 2u8, 6u8)),
        0x51 => Some((AddressingMode::IndirectY, 2u8, 5u8)),
        0xe6 => Some((AddressingMode::ZeroPage, 2u8, 5u8)),
        0xf6 => Some((AddressingMode::ZeroPageX, 2u8, 6u8)),
        0xee => Some((AddressingMode::Absolute, 3u8, 6u8)),
        0xfe => Some((AddressingMode::AbsoluteX, 3u8, 7u8)),
        0xe8 => Some((AddressingMode::Implicit, 1u8, 2u8)),
        0xc8 => Some((AddressingMode::Implicit, 1u8, 2u8)),
        0x4c => Some((AddressingMode::Absolute, 3u8, 3u8)),
        0x6c => Some((AddressingMode::Indirect, 3u8, 5u8)),
        0x20 => Some((AddressingMode::Absolute, 3u8, 6u8)),
        0xa9 => Some((AddressingMode::Immediate, 2u8, 2u8)),
        0xa5 => Some((AddressingMode::ZeroPage, 2u8, 3u8)),
        0xb5 => Some((AddressingMode::ZeroPageX, 2u8, 4u8)),
        0xad => Some((AddressingMode::Absolute, 3u8, 4u8)),
        0xbd => Some((AddressingMode::AbsoluteX, 3u8, 4u8)),
        0xb9 => Some((AddressingMode::AbsoluteY, 3u8, 4u8)),
        0xa1 => Some((AddressingMode::IndirectX, 2u8, 6u8)),
        0xb1 => Some((AddressingMode::IndirectY, 2u8, 5u8)),
        0xa2 => Some((AddressingMode::Immediate, 2u8, 2u8)),
        0xa6 => Some((AddressingMode::ZeroPage, 2u8, 3u8)),
        0xb6 => Some((AddressingMode::ZeroPageY, 2u8, 4u8)),
        0xae => Some((AddressingMode::Absolute, 3u8, 4u8)),
        0xbe => Some((AddressingMode::AbsoluteY, 3u8, 4u8)),
        0xa0 => Some((AddressingMode::Immediate, 2u8, 2u8)),
        0xa4 => Some((AddressingMode::ZeroPage, 2u8, 3u8)),
        0xb4 => Some((AddressingMode::ZeroPageX, 2u8, 4u8)),
        0xac => Some((AddressingMode::Absolute, 3u8, 4u8)),
        0xbc => Some((AddressingMode::AbsoluteX, 3u8, 4u8)),
        0x4a => Some((AddressingMode::Accumulator, 1u8, 2u8)),
        0x46 => Some((AddressingMode::ZeroPage, 2u8, 5u8)),
        0x56 => Some((AddressingMode::ZeroPageX, 2u8, 6u8)),
        0x4e => Some((AddressingMode::Absolute, 3u8, 6u8)),
        0x5e => Some((AddressingMode::AbsoluteX, 3u8, 7u8)),
        0xea => Some((AddressingMode::Implicit, 1u8, 2u8)),
        0x09 => Some((AddressingMode::Immediate, 2u8, 2u8)),
        0x05 => Some((AddressingMode::ZeroPage, 2u8, 3u8)),
        0x15 => Some((AddressingMode::ZeroPageX, 2u8, 4u8)),
        0x0d => Some((AddressingMode::Absolute, 3u8, 4u8)),
        0x1d => Some((AddressingMode::AbsoluteX, 3u8, 4u8)),
        0x19 => Some((AddressingMode::AbsoluteY, 3u8, 4u8)),
        0x01 => Some((AddressingMode::IndirectX, 2u8, 6u8)),
        0x11 => Some((AddressingMode::IndirectY, 2u8, 5u8)),
        0x48 => Some((AddressingMode::Implicit, 1u8, 3u8)),
        0x08 => Some((AddressingMode::Implicit, 1u8, 3u8)),
        0x68 => Some((AddressingMode::Implicit, 1u8, 4u8)),
        0x28 => Some((AddressingMode::Implicit, 1u8, 4u8)),
        0x2a => Some((AddressingMode::Accumulator, 1u8, 2u8)),
        0x26 => Some((AddressingMode::ZeroPage, 2u8, 5u8)),
        0x36 => Some((AddressingMode::ZeroPageX, 2u8, 6u8)),
        0x2e => Some((AddressingMode::Absolute, 3u8, 6u8)),
        0x3e => Some((AddressingMode::AbsoluteX, 3u8, 7u8)),
        0x6a => Some((AddressingMode::Accumulator, 1u8, 2u8)),
        0x66 => Some((AddressingMode::ZeroPage, 2u8, 5u8)),
        0x76 => Some((AddressingMode::ZeroPageX, 2u8, 6u8)),
        0x6e => Some((AddressingMode::Absolute, 3u8, 6u8)),
        0x7e => Some((AddressingMode::AbsoluteX, 3u8, 7u8)),
        0x40 => Some((AddressingMode::Implicit, 1u8, 6u8)),
        0x60 => Some((AddressingMode::Implicit, 1u8, 6u8)),
        0xe9 => Some((AddressingMode::Immediate, 2u8, 2u8)),
        0xe5 => Some((AddressingMode::ZeroPage, 2u8, 3u8)),
        0xf5 => Some((AddressingMode::ZeroPageX, 2u8, 4u8)),
        0xed => Some((AddressingMode::Absolute, 3u8, 4u8)),
        0xfd => Some((AddressingMode::AbsoluteX, 3u8, 4u8)),
        0xf9 => Some((AddressingMode::AbsoluteY, 3u8, 4u8)),
        0xe1 => Some((AddressingMode::IndirectX, 2u8, 6u8)),
        0xf1 => Some((AddressingMode::IndirectY, 2u8, 5u8)),
        0x38 => Some((AddressingMode::Implicit, 1u8, 2u8)),
        0xf8 => Some((AddressingMode::Implicit, 1u8, 2u8)),
        0x78 => Some((AddressingMode::Implicit, 1u8, 2u8)),
        0x85 => Some((AddressingMode::ZeroPage, 2u8, 3u8)),
        0x95 => Some((AddressingMode::ZeroPageX, 2u8, 4u8)),
        0x8d => Some((AddressingMode::Absolute, 3u8, 4u8)),
        0x9d => Some((AddressingMode::AbsoluteX, 3u8, 5u8)),
        0x99 => Some((AddressingMode::AbsoluteY, 3u8, 5u8)),
        0x81 => Some((AddressingMode::IndirectX, 2u8, 6u8)),
        0x91 => Some((AddressingMode::IndirectY, 2u8, 6u8)),
        0x86 => Some((AddressingMode::ZeroPage, 2u8, 3u8)),
        0x96 => Some((AddressingMode::ZeroPageY, 2u8, 4u8)),
        0x8e => Some((AddressingMode::Absolute, 3u8, 4u8)),
        0x84 => Some((AddressingMode::ZeroPage, 2u8, 3u8)),
        0x94 => Some((AddressingMode::ZeroPageX, 2u8, 4u8)),
        0x8c => Some((AddressingMode::Absolute, 3u8, 4u8)),
        0xaa => Some((AddressingMode::Implicit, 1u8, 2u8)),
        0xa8 => Some((AddressingMode::Implicit, 1u8, 2u8)),
        0xba => Some((AddressingMode::Implicit, 1u8, 2u8)),
        0x8a => Some((AddressingMode::Implicit, 1u8, 2u8)),
        0x9a => Some((AddressingMode::Implicit, 1u8, 2u8)),
        0x98 => Some((AddressingMode::Implicit, 1u8, 2u8)),
        _ => None,
    }
}

/// The mnemonic of each opcode, as the descriptor carries it.
pub open spec fn spec_mnemonic(code: u8) -> Seq<char> {
    match code {
        0x69 => "ADC"@,
        0x65 => "ADC"@,
        0x75 => "ADC"@,
        0x6d => "ADC"@,
        0x7d => "ADC"@,
        0x79 => "ADC"@,
        0x61 => "ADC"@,
        0x71 => "ADC"@,
        0x29 => "AND"@,
        0x25 => "AND"@,
        0x35 => "AND"@,
        0x2d => "AND"@,
        0x3d => "AND"@,
        0x39 => "AND"@,
        0x21 => "AND"@,
        0x31 => "AND"@,
        0x0a => "ASL"@,
        0x06 => "ASL"@,
        0x16 => "ASL"@,
        0x0e => "ASL"@,
        0x1e => "ASL"@,
        0x90 => "BCC"@,
        0xb0 => "BCS"@,
        0xf0 => "BEQ"@,
        0x24 => "BIT"@,
        0x2c => "BIT"@,
        0x30 => "BMI"@,
        0xd0 => "BNE"@,
        0x10 => "BPL"@,
        0x00 => "BRK"@,
        0x50 => "BVC"@,
        0x70 => "BVS"@,
        0x18 => "CLC"@,
        0xd8 => "CLD"@,
        0x58 => "CLI"@,
        0xb8 => "CLV"@,
        0xc9 => "CMP"@,
        0xc5 => "CMP"@,
        0xd5 => "CMP"@,
        0xcd => "CMP"@,
        0xdd => "CMP"@,
        0xd9 => "CMP"@,
        0xc1 => "CMP"@,
        0xd1 => "CMP"@,
        0xe0 => "CPX"@,
        0xe4 => "CPX"@,
        0xec => "CPX"@,
        0xc0 => "CPY"@,
        0xc4 => "CPY"@,
        0xcc => "CPY"@,
        0xc6 => "DEC"@,
        0xd6 => "DEC"@,
        0xce => "DEC"@,
        0xde => "DEC"@,
        0xca => "DEX"@,
        0x88 => "DEY"@,
        0x49 => "EOR"@,
        0x45 => "EOR"@,
        0x55 => "EOR"@,
        0x4d => "EOR"@,
        0x5d => "EOR"@,
        0x59 => "EOR"@,
        0x41 => "EOR"@,
        0x51 => "EOR"@,
        0xe6 => "INC"@,
        0xf6 => "INC"@,
        0xee => "INC"@,
        0xfe => "INC"@,
        0xe8 => "INX"@,
        0xc8 => "INY"@,
        0x4c => "JMP"@,
        0x6c => "JMP"@,
        0x20 => "JSR"@,
        0xa9 => "LDA"@,
        0xa5 => "LDA"@,
        0xb5 => "LDA"@,
        0xad => "LDA"@,
        0xbd => "LDA"@,
        0xb9 => "LDA"@,
        0xa1 => "LDA"@,
        0xb1 => "LDA"@,
        0xa2 => "LDX"@,
        0xa6 => "LDX"@,
        0xb6 => "LDX"@,
        0xae => "LDX"@,
        0xbe => "LDX"@,
        0xa0 => "LDY"@,
        0xa4 => "LDY"@,
        0xb4 => "LDY"@,
        0xac => "LDY"@,
        0xbc => "LDY"@,
        0x4a => "LSR"@,
        0x46 => "LSR"@,
        0x56 => "LSR"@,
        0x4e => "LSR"@,
        0x5e => "LSR"@,
        0xea => "NOP"@,
        0x09 => "ORA"@,
        0x05 => "ORA"@,
        0x15 => "ORA"@,
        0x0d => "ORA"@,
        0x1d => "ORA"@,
        0x19 => "ORA"@,
        0x01 => "ORA"@,
        0x11 => "ORA"@,
        0x48 => "PHA"@,
        0x08 => "PHP"@,
        0x68 => "PLA"@,
        0x28 => "PLP"@,
        0x2a => "ROL"@,
        0x26 => "ROL"@,
        0x36 => "ROL"@,
        0x2e => "ROL"@,
        0x3e => "ROL"@,
        0x6a => "ROR"@,
        0x66 => "ROR"@,
        0x76 => "ROR"@,
        0x6e => "ROR"@,
        0x7e => "ROR"@,
        0x40 => "RTI"@,
        0x60 => "RTS"@,
        0xe9 => "SBC"@,
        0xe5 => "SBC"@,
        0xf5 => "SBC"@,
        0xed => "SBC"@,
        0xfd => "SBC"@,
        0xf9 => "SBC"@,
        0xe1 => "SBC"@,
        0xf1 => "SBC"@,
        0x38 => "SEC"@,
        0xf8 => "SED"@,
        0x78 => "SEI"@,
        0x85 => "STA"@,
        0x95 => "STA"@,
        0x8d => "STA"@,
        0x9d => "STA"@,
        0x99 => "STA"@,
        0x81 => "STA"@,
        0x91 => "STA"@,
        0x86 => "STX"@,
        0x96 => "STX"@,
        0x8e => "STX"@,
        0x84 => "STY"@,
        0x94 => "STY"@,
        0x8c => "STY"@,
        0xaa => "TAX"@,
        0xa8 => "TAY"@,
        0xba => "TSX"@,
        0x8a => "TXA"@,
        0x9a => "TXS"@,
        0x98 => "TYA"@,
        _ => "???"@,
    }
}

/// The mnemonic of a defined opcode, for hosts that trace execution.
pub fn mnemonic_of(code: u8) -> (r: &'static str)
    ensures
        r@ == spec_mnemonic(code),
{
    match code {
        0x69 => "ADC",
        0x65 => "ADC",
        0x75 => "ADC",
        0x6d => "ADC",
        0x7d => "ADC",
        0x79 => "ADC",
        0x61 => "ADC",
        0x71 => "ADC",
        0x29 => "AND",
        0x25 => "AND",
        0x35 => "AND",
        0x2d => "AND",
        0x3d => "AND",
        0x39 => "AND",
        0x21 => "AND",
        0x31 => "AND",
        0x0a => "ASL",
        0x06 => "ASL",
        0x16 => "ASL",
        0x0e => "ASL",
        0x1e => "ASL",
        0x90 => "BCC",
        0xb0 => "BCS",
        0xf0 => "BEQ",
        0x24 => "BIT",
        0x2c => "BIT",
        0x30 => "BMI",
        0xd0 => "BNE",
        0x10 => "BPL",
        0x00 => "BRK",
        0x50 => "BVC",
        0x70 => "BVS",
        0x18 => "CLC",
        0xd8 => "CLD",
        0x58 => "CLI",
        0xb8 => "CLV",
        0xc9 => "CMP",
        0xc5 => "CMP",
        0xd5 => "CMP",
        0xcd => "CMP",
        0xdd => "CMP",
        0xd9 => "CMP",
        0xc1 => "CMP",
        0xd1 => "CMP",
        0xe0 => "CPX",
        0xe4 => "CPX",
        0xec => "CPX",
        0xc0 => "CPY",
        0xc4 => "CPY",
        0xcc => "CPY",
        0xc6 => "DEC",
        0xd6 => "DEC",
        0xce => "DEC",
        0xde => "DEC",
        0xca => "DEX",
        0x88 => "DEY",
        0x49 => "EOR",
        0x45 => "EOR",
        0x55 => "EOR",
        0x4d => "EOR",
        0x5d => "EOR",
        0x59 => "EOR",
        0x41 => "EOR",
        0x51 => "EOR",
        0xe6 => "INC",
        0xf6 => "INC",
        0xee => "INC",
        0xfe => "INC",
        0xe8 => "INX",
        0xc8 => "INY",
        0x4c => "JMP",
        0x6c => "JMP",
        0x20 => "JSR",
        0xa9 => "LDA",
        0xa5 => "LDA",
        0xb5 => "LDA",
        0xad => "LDA",
        0xbd => "LDA",
        0xb9 => "LDA",
        0xa1 => "LDA",
        0xb1 => "LDA",
        0xa2 => "LDX",
        0xa6 => "LDX",
        0xb6 => "LDX",
        0xae => "LDX",
        0xbe => "LDX",
        0xa0 => "LDY",
        0xa4 => "LDY",
        0xb4 => "LDY",
        0xac => "LDY",
        0xbc => "LDY",
        0x4a => "LSR",
        0x46 => "LSR",
        0x56 => "LSR",
        0x4e => "LSR",
        0x5e => "LSR",
        0xea => "NOP",
        0x09 => "ORA",
        0x05 => "ORA",
        0x15 => "ORA",
        0x0d => "ORA",
        0x1d => "ORA",
        0x19 => "ORA",
        0x01 => "ORA",
        0x11 => "ORA",
        0x48 => "PHA",
        0x08 => "PHP",
        0x68 => "PLA",
        0x28 => "PLP",
        0x2a => "ROL",
        0x26 => "ROL",
        0x36 => "ROL",
        0x2e => "ROL",
        0x3e => "ROL",
        0x6a => "ROR",
        0x66 => "ROR",
        0x76 => "ROR",
        0x6e => "ROR",
        0x7e => "ROR",
        0x40 => "RTI",
        0x60 => "RTS",
        0xe9 => "SBC",
        0xe5 => "SBC",
        0xf5 => "SBC",
        0xed => "SBC",
        0xfd => "SBC",
        0xf9 => "SBC",
        0xe1 => "SBC",
        0xf1 => "SBC",
        0x38 => "SEC",
        0xf8 => "SED",
        0x78 => "SEI",
        0x85 => "STA",
        0x95 => "STA",
        0x8d => "STA",
        0x9d => "STA",
        0x99 => "STA",
        0x81 => "STA",
        0x91 => "STA",
        0x86 => "STX",
        0x96 => "STX",
        0x8e => "STX",
        0x84 => "STY",
        0x94 => "STY",
        0x8c => "STY",
        0xaa => "TAX",
        0xa8 => "TAY",
        0xba => "TSX",
        0x8a => "TXA",
        0x9a => "TXS",
        0x98 => "TYA",
        _ => "???",
    }
}

/// Look an opcode byte up in the decode table.
pub fn opcode_lookup(code: u8) -> (r: Option<OperationCode>)
    ensures
        r is Some <==> spec_decode(code) is Some,
        r matches Some(op) ==> ({
            &&& spec_decode(code) matches Some(info) && op.addressing_mode == info.0
                && op.bytes == info.1 && op.cycles == info.2
            &&& op.code == code
            &&& op.mnemonic@ == spec_mnemonic(code)
            &&& 1 <= op.bytes <= 3
            &&& 2 <= op.cycles <= 7
        }),
{
    match decode_info(code) {
        None => None,
        Some(info) => Some(
            OperationCode::new(code, mnemonic_of(code), info.0, info.1, info.2),
        ),
    }
}

/// The branch opcodes.
pub open spec fn spec_is_branch_op(op: u8) -> bool {
    op == 0x90 || op == 0xb0 || op == 0xf0 || op == 0x30 || op == 0xd0 || op == 0x10 || op == 0x50
        || op == 0x70
}

/// Whether the branch opcode's condition holds under the given flags.
pub open spec fn spec_branch_cond(f: CpuFlags, op: u8) -> bool {
    if op == 0x90 {
        !f.c
    } else if op == 0xb0 {
        f.c
    } else if op == 0xf0 {
        f.z
    } else if op == 0xd0 {
        !f.z
    } else if op == 0x30 {
        f.n
    } else if op == 0x10 {
        !f.n
    } else if op == 0x50 {
        !f.v
    } else if op == 0x70 {
        f.v
    } else {
        false
    }
}

/// JMP and JSR, which set the program counter themselves.
pub open spec fn spec_is_jump_op(op: u8) -> bool {
    op == 0x4c || op == 0x6c || op == 0x20
}

/// The read-class instructions with an indexed addressing mode, which pay
/// one extra cycle when the index carries into the address's high byte.
pub open spec fn spec_penalized_op(op: u8) -> bool {
    op == 0x11 || op == 0x19 || op == 0x1d || op == 0x31 || op == 0x39 || op == 0x3d || op == 0x51 || op == 0x59 || op == 0x5d || op == 0x71 || op == 0x79 || op == 0x7d || op == 0xb1 || op == 0xb9 || op == 0xbc || op == 0xbd || op == 0xbe || op == 0xd1 || op == 0xd9 || op == 0xdd || op == 0xf1 || op == 0xf9 || op == 0xfd
}

/// Executable twin of `spec_penalized_op`.
pub fn is_penalized_op(op: u8) -> (r: bool)
    ensures
        r == spec_penalized_op(op),
{
    match op {
        0x11 | 0x19 | 0x1d | 0x31 | 0x39 | 0x3d | 0x51 | 0x59 | 0x5d | 0x71 | 0x79 | 0x7d | 0xb1 | 0xb9 | 0xbc | 0xbd | 0xbe | 0xd1 | 0xd9 | 0xdd | 0xf1 | 0xf9 | 0xfd => true,
        _ => false,
    }
}

} // verus!
