//! The two decode error kinds: an opcode class the decoder does not
//! implement, and an implemented class whose field combination violates the
//! encoding's documented constraints. Both carry enough context to pinpoint
//! the cause; neither is fatal to the caller.

use vstd::prelude::*;

verus! {

/// An opcode class that the decoder recognises but does not implement:
/// the floating-point, custom, reserved and wide-encoding classes of the
/// 32-bit opcode map, and the compressed slots outside the implemented set
/// (carrying the 5-bit funct3/quadrant slot key).
#[derive(Debug, Copy, Clone, PartialEq, Eq, Structural)]
pub enum OpClass {
    LoadFp,
    StoreFp,
    Custom0,
    Custom1,
    Custom2,
    Custom3,
    Madd,
    Msub,
    Nmsub,
    Nmadd,
    OpFp,
    Reserved,
    Width48,
    Width64,
    Width80,
    Compressed(u8),
}

/// The instruction field whose value an invalid encoding violates.
#[derive(Debug, Copy, Clone, PartialEq, Eq, Structural)]
pub enum Field {
    Opcode,
    Funct3,
    Funct4,
    Funct5,
    Funct7,
    Imm,
    Shamt,
    RdRs1,
}

/// Why a word failed to decode: either its class is real but unimplemented
/// or reserved, or the class is implemented and a field of the word violates
/// the encoding's constraints. The offending field and its value are
/// carried so the caller can diagnose the word.
#[derive(Debug, Copy, Clone, PartialEq, Eq, Structural)]
pub enum DecodeError {
    Unimplemented { class: OpClass },
    Invalid { field: Field, value: u64 },
}

} // verus!
