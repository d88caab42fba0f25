//! The decoded instruction data model: a closed set of operation variants,
//! each carrying exactly the operands its opcode requires. A value is built
//! once per decode and owned by the caller.

use vstd::prelude::*;

use crate::csr::CsrRegister;
use crate::error::DecodeError;
use crate::error::Field;
use crate::optype::spec_new_auipc;
use crate::optype::spec_new_b;
use crate::optype::spec_new_csr;
use crate::optype::spec_new_i;
use crate::optype::spec_new_jal;
use crate::optype::spec_new_jalr;
use crate::optype::spec_new_load;
use crate::optype::spec_new_lui;
use crate::optype::spec_new_r;
use crate::optype::spec_new_s;
use crate::optype::OpType;
use crate::register::Register;

verus! {

/// The four device/memory orderings a FENCE operand names: input, output,
/// read, write.
#[derive(Debug, Copy, Clone, PartialEq, Eq, Structural)]
pub struct FenceFlags {
    pub i: bool,
    pub o: bool,
    pub r: bool,
    pub w: bool,
}

/// The flags named by a 4-bit FENCE operand field, one bit per ordering:
/// bit 3 input, bit 2 output, bit 1 read, bit 0 write.
pub open spec fn spec_fence_flags(bits: u8) -> FenceFlags {
    FenceFlags { i: bits & 8 == 8, o: bits & 4 == 4, r: bits & 2 == 2, w: bits & 1 == 1 }
}

impl FenceFlags {
    /// Reads the four orderings out of a 4-bit FENCE operand field.
    pub fn from_bits(bits: u8) -> (f: FenceFlags)
        ensures
            f == spec_fence_flags(bits),
    {
        FenceFlags { i: bits & 8 == 8, o: bits & 4 == 4, r: bits & 2 == 2, w: bits & 1 == 1 }
    }
}

/// A decoded operation. Register-register ALU operations carry three
/// registers; loads, stores and branches carry a register pair and a signed
/// 64-bit offset; LUI carries its immediate left in place as an unsigned
/// value; the CSR operations carry the addressed register and, for the
/// immediate forms, the raw rs1 field as a 5-bit unsigned immediate.
#[derive(Debug, Copy, Clone, PartialEq, Eq, Structural)]
pub enum Instruction {
    Add { rd: Register, rs1: Register, rs2: Register },
    Sub { rd: Register, rs1: Register, rs2: Register },
    Sll { rd: Register, rs1: Register, rs2: Register },
    Slt { rd: Register, rs1: Register, rs2: Register },
    Sltu { rd: Register, rs1: Register, rs2: Register },
    Xor { rd: Register, rs1: Register, rs2: Register },
    Srl { rd: Register, rs1: Register, rs2: Register },
    Sra { rd: Register, rs1: Register, rs2: Register },
    Or { rd: Register, rs1: Register, rs2: Register },
    And { rd: Register, rs1: Register, rs2: Register },
    Addw { rd: Register, rs1: Register, rs2: Register },
    Subw { rd: Register, rs1: Register, rs2: Register },
    Sllw { rd: Register, rs1: Register, rs2: Register },
    Srlw { rd: Register, rs1: Register, rs2: Register },
    Sraw { rd: Register, rs1: Register, rs2: Register },
    Mul { rd: Register, rs1: Register, rs2: Register },
    Mulh { rd: Register, rs1: Register, rs2: Register },
    Mulhsu { rd: Register, rs1: Register, rs2: Register },
    Mulhu { rd: Register, rs1: Register, rs2: Register },
    Div { rd: Register, rs1: Register, rs2: Register },
    Divu { rd: Register, rs1: Register, rs2: Register },
    Rem { rd: Register, rs1: Register, rs2: Register },
    Remu { rd: Register, rs1: Register, rs2: Register },
    Mulw { rd: Register, rs1: Register, rs2: Register },
    Divw { rd: Register, rs1: Register, rs2: Register },
    Divuw { rd: Register, rs1: Register, rs2: Register },
    Remw { rd: Register, rs1: Register, rs2: Register },
    Remuw { rd: Register, rs1: Register, rs2: Register },
    Amoaddw { rd: Register, rs1: Register, rs2: Register, aq: bool, rl: bool },
    Amoswapw { rd: Register, rs1: Register, rs2: Register, aq: bool, rl: bool },
    Addi { rd: Register, rs1: Register, imm: i64 },
    Slti { rd: Register, rs1: Register, imm: i64 },
    Sltiu { rd: Register, rs1: Register, imm: i64 },
    Xori { rd: Register, rs1: Register, imm: i64 },
    Ori { rd: Register, rs1: Register, imm: i64 },
    Andi { rd: Register, rs1: Register, imm: i64 },
    Slli { rd: Register, rs1: Register, shamt: u64 },
    Srli { rd: Register, rs1: Register, shamt: u64 },
    Srai { rd: Register, rs1: Register, shamt: u64 },
    Addiw { rd: Register, rs1: Register, imm: i64 },
    Slliw { rd: Register, rs1: Register, shamt: u64 },
    Srliw { rd: Register, rs1: Register, shamt: u64 },
    Sraiw { rd: Register, rs1: Register, shamt: u64 },
    Sb { rs1: Register, rs2: Register, imm: i64 },
    Sh { rs1: Register, rs2: Register, imm: i64 },
    Sw { rs1: Register, rs2: Register, imm: i64 },
    Sd { rs1: Register, rs2: Register, imm: i64 },
    Lb { rd: Register, rs1: Register, imm: i64 },
    Lh { rd: Register, rs1: Register, imm: i64 },
    Lw { rd: Register, rs1: Register, imm: i64 },
    Lbu { rd: Register, rs1: Register, imm: i64 },
    Lhu { rd: Register, rs1: Register, imm: i64 },
    Lwu { rd: Register, rs1: Register, imm: i64 },
    Ld { rd: Register, rs1: Register, imm: i64 },
    Beq { rs1: Register, rs2: Register, imm: i64 },
    Bne { rs1: Register, rs2: Register, imm: i64 },
    Blt { rs1: Register, rs2: Register, imm: i64 },
    Bltu { rs1: Register, rs2: Register, imm: i64 },
    Bge { rs1: Register, rs2: Register, imm: i64 },
    Bgeu { rs1: Register, rs2: Register, imm: i64 },
    Auipc { rd: Register, imm: i64 },
    Lui { rd: Register, uimm: u64 },
    Jalr { rd: Register, rs1: Register, imm: i64 },
    Jal { rd: Register, imm: i64 },
    Ecall,
    Ebreak,
    Uret,
    Sret,
    Wfi,
    Mret,
    Csrrw { rd: Register, rs1: Register, csr: CsrRegister },
    Csrrs { rd: Register, rs1: Register, csr: CsrRegister },
    Csrrc { rd: Register, rs1: Register, csr: CsrRegister },
    Csrrwi { rd: Register, csr: CsrRegister, imm: i64 },
    Csrrsi { rd: Register, csr: CsrRegister, imm: i64 },
    Csrrci { rd: Register, csr: CsrRegister, imm: i64 },
    Fence { pred: FenceFlags, succ: FenceFlags },
    FenceI,
}

/// The format value that a word's low seven opcode bits call for, or an
/// error naming the opcode when no implemented class uses those bits.
pub open spec fn spec_opcode_type(w: u32) -> Result<OpType, DecodeError> {
    let opcode = w & 0b0111_1111;
    if opcode == 0x37 {
        Ok(spec_new_lui(w))
    } else if opcode == 0x17 {
        Ok(spec_new_auipc(w))
    } else if opcode == 0x6F {
        Ok(spec_new_jal(w))
    } else if opcode == 0x67 {
        Ok(spec_new_jalr(w))
    } else if opcode == 0x73 {
        Ok(spec_new_csr(w))
    } else if opcode == 0x0F || opcode == 0x13 || opcode == 0x1B {
        Ok(spec_new_i(w))
    } else if opcode == 0x03 {
        Ok(spec_new_load(w))
    } else if opcode == 0x23 {
        Ok(spec_new_s(w))
    } else if opcode == 0x63 {
        Ok(spec_new_b(w))
    } else if opcode == 0x33 || opcode == 0x3B {
        Ok(spec_new_r(w))
    } else {
        Err(DecodeError::Invalid { field: Field::Opcode, value: opcode as u64 })
    }
}

impl Instruction {
    /// The format value that a word's opcode class calls for: the coarse
    /// half of the two-level dispatch, without the per-class funct
    /// refinement.
    pub fn opcode_type(full_opcode: u32) -> (r: Result<OpType, DecodeError>)
        ensures
            r == spec_opcode_type(full_opcode),
    {
        let opcode = full_opcode & 0b0111_1111;
        match opcode {
            0x37 => Ok(OpType::new_lui(full_opcode)),
            0x17 => Ok(OpType::new_auipc(full_opcode)),
            0x6F => Ok(OpType::new_jal(full_opcode)),
            0x67 => Ok(OpType::new_jalr(full_opcode)),
            0x73 => Ok(OpType::new_csr(full_opcode)),
            0x0F | 0x13 | 0x1B => Ok(OpType::new_i(full_opcode)),
            0x03 => Ok(OpType::new_load(full_opcode)),
            0x23 => Ok(OpType::new_s(full_opcode)),
            0x63 => Ok(OpType::new_b(full_opcode)),
            0x33 | 0x3B => Ok(OpType::new_r(full_opcode)),
            _ => Err(DecodeError::Invalid { field: Field::Opcode, value: opcode as u64 }),
        }
    }
}

} // verus!
