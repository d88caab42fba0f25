//! Decoder for RISC-V machine words (RV64I base, M extension, Zicsr,
//! Zifencei, and part of the 16-bit compressed encoding).
//!
//! One call decodes one word: `decode` inspects the low bits to pick the
//! 32-bit or the 16-bit path, extracts the format fields, and either builds
//! the matching [`Instruction`] or reports a [`DecodeError`]. Every public
//! function carries a contract that pins its result for every input word.

use vstd::prelude::*;

pub mod compressed;
pub mod csr;
pub mod decoder;
pub mod error;
pub mod fields;
pub mod instruction;
pub mod opcode;
pub mod optype;
pub mod register;

pub use compressed::COpType;
pub use csr::CsrRegister;
pub use decoder::decode;
pub use error::DecodeError;
pub use error::Field;
pub use error::OpClass;
pub use instruction::FenceFlags;
pub use instruction::Instruction;
pub use opcode::Opcodes;
pub use optype::OpType;
pub use register::Register;

verus! {

/// Width in bytes of the instruction that starts with this word: 4 when the
/// low two bits are `11` (a 32-bit encoding), 2 otherwise (a 16-bit
/// compressed encoding).
pub fn opcode_size(full_opcode: u32) -> (size: usize)
    ensures
        full_opcode & 0b11 == 0b11 ==> size == 4,
        full_opcode & 0b11 != 0b11 ==> size == 2,
{
    if full_opcode & 0b11 == 0b11 {
        4
    } else {
        2
    }
}

} // verus!
