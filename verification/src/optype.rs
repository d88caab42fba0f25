//! The intermediate format values of the 32-bit encoding: pure field
//! splitters that slice a raw word into typed, sign-extended components,
//! one constructor per format. A format value is transient — the decoder
//! consults it once and discards it.

use vstd::prelude::*;

use crate::csr::spec_from_address;
use crate::csr::CsrRegister;
use crate::fields::csr_field_of;
use crate::fields::funct3_of;
use crate::fields::funct7_of;
use crate::fields::imm_b_of;
use crate::fields::imm_i_of;
use crate::fields::imm_j_of;
use crate::fields::imm_s_of;
use crate::fields::imm_u_of;
use crate::fields::reg_rd;
use crate::fields::reg_rs1;
use crate::fields::reg_rs2;
use crate::fields::uimm_u_of;
use crate::register::Register;

verus! {

broadcast use crate::fields::lemma_u32_and_mask_bound;

/// A 32-bit instruction word split into the fields of one format. Each
/// variant carries exactly the registers, funct codes and reassembled,
/// sign-extended immediate that the format defines.
#[derive(Debug, Copy, Clone, PartialEq, Eq, Structural)]
pub enum OpType {
    R { rd: Register, rs1: Register, rs2: Register, funct3: u8, funct7: u8 },
    I { rd: Register, rs1: Register, funct3: u8, imm: i64 },
    Load { rd: Register, rs1: Register, funct3: u8, imm: i64 },
    Jalr { rd: Register, rs1: Register, funct3: u8, imm: i64 },
    Csr { rd: Register, rs1: Register, funct3: u8, csr: CsrRegister },
    S { rs1: Register, rs2: Register, funct3: u8, imm: i64 },
    B { rs1: Register, rs2: Register, funct3: u8, imm: i64 },
    U { rd: Register, imm: i64, uimm: u64 },
    Auipc { rd: Register, imm: i64 },
    Lui { rd: Register, imm: u64 },
    J { rd: Register, imm: i64 },
    Jal { rd: Register, imm: i64 },
}

/// The R format of a word: three registers and both funct codes.
pub open spec fn spec_new_r(w: u32) -> OpType {
    OpType::R {
        rd: reg_rd(w),
        rs1: reg_rs1(w),
        rs2: reg_rs2(w),
        funct3: funct3_of(w),
        funct7: funct7_of(w),
    }
}

/// The I format of a word: two registers, funct3 and the sign-extended
/// 12-bit immediate.
pub open spec fn spec_new_i(w: u32) -> OpType {
    OpType::I { rd: reg_rd(w), rs1: reg_rs1(w), funct3: funct3_of(w), imm: imm_i_of(w) }
}

/// The I format reinterpreted for the SYSTEM class: the 12-bit immediate
/// field, never sign-extended, is read as a CSR address.
pub open spec fn spec_new_csr(w: u32) -> OpType {
    OpType::Csr {
        rd: reg_rd(w),
        rs1: reg_rs1(w),
        funct3: funct3_of(w),
        csr: spec_from_address(csr_field_of(w) as u64),
    }
}

/// The I format relabelled for the LOAD class.
pub open spec fn spec_new_load(w: u32) -> OpType {
    OpType::Load { rd: reg_rd(w), rs1: reg_rs1(w), funct3: funct3_of(w), imm: imm_i_of(w) }
}

/// The I format relabelled for the JALR class.
pub open spec fn spec_new_jalr(w: u32) -> OpType {
    OpType::Jalr { rd: reg_rd(w), rs1: reg_rs1(w), funct3: funct3_of(w), imm: imm_i_of(w) }
}

/// The S format of a word: two registers, funct3 and the sign-extended
/// store offset.
pub open spec fn spec_new_s(w: u32) -> OpType {
    OpType::S { rs1: reg_rs1(w), rs2: reg_rs2(w), funct3: funct3_of(w), imm: imm_s_of(w) }
}

/// The B format of a word: two registers, funct3 and the sign-extended,
/// even branch offset.
pub open spec fn spec_new_b(w: u32) -> OpType {
    OpType::B { rs1: reg_rs1(w), rs2: reg_rs2(w), funct3: funct3_of(w), imm: imm_b_of(w) }
}

/// The U format of a word: the destination register, the 20-bit field both
/// as a signed value and left in place in bits 31:12.
pub open spec fn spec_new_u(w: u32) -> OpType {
    OpType::U { rd: reg_rd(w), imm: imm_u_of(w), uimm: uimm_u_of(w) }
}

/// The U format relabelled for AUIPC, keeping the signed reading.
pub open spec fn spec_new_auipc(w: u32) -> OpType {
    OpType::Auipc { rd: reg_rd(w), imm: imm_u_of(w) }
}

/// The U format relabelled for LUI, keeping the in-place unsigned reading.
pub open spec fn spec_new_lui(w: u32) -> OpType {
    OpType::Lui { rd: reg_rd(w), imm: uimm_u_of(w) }
}

/// The J format of a word: the destination register and the sign-extended,
/// even jump offset.
pub open spec fn spec_new_j(w: u32) -> OpType {
    OpType::J { rd: reg_rd(w), imm: imm_j_of(w) }
}

/// The J format relabelled for JAL.
pub open spec fn spec_new_jal(w: u32) -> OpType {
    OpType::Jal { rd: reg_rd(w), imm: imm_j_of(w) }
}

impl OpType {
    pub fn new_r(from: u32) -> (r: OpType)
        ensures
            r == spec_new_r(from),
    {
        let rd = Register::from_index(((from >> 7) & 0b1_1111) as usize);
        let funct3 = ((from >> 12) & 0b0111) as u8;
        let rs1 = Register::from_index(((from >> 15) & 0b1_1111) as usize);
        let rs2 = Register::from_index(((from >> 20) & 0b1_1111) as usize);
        let funct7 = ((from >> 25) & 0b0111_1111) as u8;
        OpType::R { rd, rs1, rs2, funct3, funct7 }
    }

    pub fn new_i(from: u32) -> (r: OpType)
        ensures
            r == spec_new_i(from),
    {
        let rd = Register::from_index(((from >> 7) & 0b1_1111) as usize);
        let funct3 = ((from >> 12) & 0b0111) as u8;
        let rs1 = Register::from_index(((from >> 15) & 0b1_1111) as usize);
        let field = (from >> 20) & 0xFFF;
        // Sign-extend from bit 11 of the field
        let imm: i64 = if (from >> 31) & 1 == 1 {
            field as i64 - 4096
        } else {
            field as i64
        };
        OpType::I { rd, rs1, funct3, imm }
    }

    pub fn new_csr(from: u32) -> (r: OpType)
        ensures
            r == spec_new_csr(from),
    {
        match Self::new_i(from) {
            OpType::I { rd, rs1, funct3, imm: _ } => {
                let csr = CsrRegister::from_address(((from >> 20) & 0xFFF) as u64);
                OpType::Csr { rd, rs1, funct3, csr }
            },
            _ => vstd::pervasive::unreached(),
        }
    }

    pub fn new_load(from: u32) -> (r: OpType)
        ensures
            r == spec_new_load(from),
    {
        match Self::new_i(from) {
            OpType::I { rd, rs1, funct3, imm } => OpType::Load { rd, rs1, funct3, imm },
            _ => vstd::pervasive::unreached(),
        }
    }

    pub fn new_jalr(from: u32) -> (r: OpType)
        ensures
            r == spec_new_jalr(from),
    {
        match Self::new_i(from) {
            OpType::I { rd, rs1, funct3, imm } => OpType::Jalr { rd, rs1, funct3, imm },
            _ => vstd::pervasive::unreached(),
        }
    }

    pub fn new_s(from: u32) -> (r: OpType)
        ensures
            r == spec_new_s(from),
    {
        let funct3 = ((from >> 12) & 0b0111) as u8;
        let rs1 = Register::from_index(((from >> 15) & 0b1_1111) as usize);
        let rs2 = Register::from_index(((from >> 20) & 0b1_1111) as usize);
        let field = ((from >> 7) & 0x1F) | (((from >> 25) & 0x7F) << 5);
        // Sign-extend from bit 11 of the assembled field
        let imm: i64 = if (from >> 31) & 1 == 1 {
            field as i64 - 4096
        } else {
            field as i64
        };
        OpType::S { rs1, rs2, funct3, imm }
    }

    pub fn new_b(from: u32) -> (r: OpType)
        ensures
            r == spec_new_b(from),
    {
        let funct3 = ((from >> 12) & 0b0111) as u8;
        let rs1 = Register::from_index(((from >> 15) & 0b1_1111) as usize);
        let rs2 = Register::from_index(((from >> 20) & 0b1_1111) as usize);
        let field = (((from >> 8) & 0xF) << 1) | (((from >> 25) & 0x3F) << 5) | (((from >> 7)
            & 1) << 11) | (((from >> 31) & 1) << 12);
        // Sign-extend from bit 12 of the assembled field; bit 0 is always 0
        let imm: i64 = if (from >> 31) & 1 == 1 {
            field as i64 - 8192
        } else {
            field as i64
        };
        OpType::B { rs1, rs2, funct3, imm }
    }

    pub fn new_u(from: u32) -> (r: OpType)
        ensures
            r == spec_new_u(from),
    {
        let rd = Register::from_index(((from >> 7) & 0b1_1111) as usize);
        let field = (from >> 12) & 0xFFFFF;
        // Sign-extend from bit 19 of the field
        let imm: i64 = if (from >> 31) & 1 == 1 {
            field as i64 - 0x10_0000
        } else {
            field as i64
        };
        OpType::U { rd, imm, uimm: (from & 0xFFFF_F000) as u64 }
    }

    pub fn new_auipc(from: u32) -> (r: OpType)
        ensures
            r == spec_new_auipc(from),
    {
        match Self::new_u(from) {
            OpType::U { rd, imm, uimm: _ } => OpType::Auipc { rd, imm },
            _ => vstd::pervasive::unreached(),
        }
    }

    pub fn new_lui(from: u32) -> (r: OpType)
        ensures
            r == spec_new_lui(from),
    {
        match Self::new_u(from) {
            OpType::U { rd, imm: _, uimm } => OpType::Lui { rd, imm: uimm },
            _ => vstd::pervasive::unreached(),
        }
    }

    pub fn new_j(from: u32) -> (r: OpType)
        ensures
            r == spec_new_j(from),
    {
        let rd = Register::from_index(((from >> 7) & 0b1_1111) as usize);
        let field = (((from >> 21) & 0x3FF) << 1) | (((from >> 20) & 1) << 11) | (((from >> 12)
            & 0xFF) << 12) | (((from >> 31) & 1) << 20);
        // Sign-extend from bit 20 of the assembled field; bit 0 is always 0
        let imm: i64 = if (from >> 31) & 1 == 1 {
            field as i64 - 0x20_0000
        } else {
            field as i64
        };
        OpType::J { rd, imm }
    }

    pub fn new_jal(from: u32) -> (r: OpType)
        ensures
            r == spec_new_jal(from),
    {
        match Self::new_j(from) {
            OpType::J { rd, imm } => OpType::Jal { rd, imm },
            _ => vstd::pervasive::unreached(),
        }
    }
}

} // verus!
