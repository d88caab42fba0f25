//! Symbolic names for the low-seven-bit opcodes the crate distinguishes by
//! name, with the conversion to and from the raw opcode byte.

use vstd::prelude::*;

verus! {

/// A low-seven-bit opcode under a symbolic name, or `Unknown` carrying the
/// raw bits.
#[derive(Debug, Copy, Clone, PartialEq, Eq, Structural)]
pub enum Opcodes {
    Lui,
    Unknown(u8),
}

impl Opcodes {
    /// The name of an opcode byte; bytes without a name come back as
    /// `Unknown`.
    pub fn from_byte(value: u8) -> (r: Opcodes)
        ensures
            value == 0x37 ==> r == Opcodes::Lui,
            value != 0x37 ==> r == Opcodes::Unknown(value),
    {
        match value {
            0x37 => Opcodes::Lui,
            _ => Opcodes::Unknown(value),
        }
    }

    /// The opcode byte of a name; the inverse of `from_byte`.
    pub fn to_byte(self) -> (r: u8)
        ensures
            r == (match self {
                Opcodes::Lui => 0x37u8,
                Opcodes::Unknown(u) => u,
            }),
    {
        match self {
            Opcodes::Lui => 0x37,
            Opcodes::Unknown(u) => u,
        }
    }
}

} // verus!
