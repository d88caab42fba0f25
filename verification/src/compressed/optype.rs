//! The format values of the 16-bit compressed encoding: field splitters
//! for the eight compressed formats. CIW, CL, CS and CB read their
//! registers through the 3-bit "popular eight" mapping; CR, CI and CSS use
//! the full 5-bit field.

use vstd::prelude::*;

use crate::register::spec_from_index;
use crate::register::Register;

verus! {

broadcast use crate::fields::lemma_u16_and_mask_bound;

/// A 16-bit compressed word split into the register and funct fields of
/// one format. The immediates are format- and opcode-specific and are
/// reassembled by the dispatcher, not here.
#[derive(Debug, Copy, Clone, PartialEq, Eq, Structural)]
pub enum COpType {
    CR { rd_rs1: Register, rs2: Register, funct4: u8 },
    CI { rd_rs1: Register, funct3: u8 },
    CSS { rs2: Register, funct3: u8 },
    CIW { rd: Register, funct3: u8 },
    CL { rd: Register, rs1: Register, funct3: u8 },
    CS { rs1: Register, rs2: Register, funct3: u8 },
    CB { rs1: Register, funct3: u8 },
    CJ { funct3: u8 },
}

/// The funct3 discriminator of a compressed word, bits 15:13.
pub open spec fn c_funct3_of(op: u16) -> u8 {
    ((op >> 13) & 0b111) as u8
}

/// The funct4 discriminator of the CR format, bits 15:12.
pub open spec fn c_funct4_of(op: u16) -> u8 {
    ((op >> 12) & 0xF) as u8
}

/// The full 5-bit register field at bits 11:7.
pub open spec fn c_reg_at_7(op: u16) -> Register {
    spec_from_index(((op >> 7) & 0x1F) as int)
}

/// The full 5-bit register field at bits 6:2.
pub open spec fn c_reg_at_2(op: u16) -> Register {
    spec_from_index(((op >> 2) & 0x1F) as int)
}

/// The 3-bit compressed register field at bits 9:7, mapped into the
/// popular eight.
pub open spec fn c_rvc_at_7(op: u16) -> Register {
    spec_from_index(((op >> 7) & 0b111) as int + 8)
}

/// The 3-bit compressed register field at bits 4:2, mapped into the
/// popular eight.
pub open spec fn c_rvc_at_2(op: u16) -> Register {
    spec_from_index(((op >> 2) & 0b111) as int + 8)
}

/// The CR format of a word.
pub open spec fn spec_new_cr(op: u16) -> COpType {
    COpType::CR { rd_rs1: c_reg_at_7(op), rs2: c_reg_at_2(op), funct4: c_funct4_of(op) }
}

/// The CI format of a word.
pub open spec fn spec_new_ci(op: u16) -> COpType {
    COpType::CI { rd_rs1: c_reg_at_7(op), funct3: c_funct3_of(op) }
}

/// The CSS format of a word.
pub open spec fn spec_new_css(op: u16) -> COpType {
    COpType::CSS { rs2: c_reg_at_2(op), funct3: c_funct3_of(op) }
}

/// The CIW format of a word.
pub open spec fn spec_new_ciw(op: u16) -> COpType {
    COpType::CIW { rd: c_rvc_at_2(op), funct3: c_funct3_of(op) }
}

/// The CL format of a word.
pub open spec fn spec_new_cl(op: u16) -> COpType {
    COpType::CL { rd: c_rvc_at_2(op), rs1: c_rvc_at_7(op), funct3: c_funct3_of(op) }
}

/// The CS format of a word.
pub open spec fn spec_new_cs(op: u16) -> COpType {
    COpType::CS { rs1: c_rvc_at_7(op), rs2: c_rvc_at_2(op), funct3: c_funct3_of(op) }
}

/// The CB format of a word.
pub open spec fn spec_new_cb(op: u16) -> COpType {
    COpType::CB { rs1: c_rvc_at_7(op), funct3: c_funct3_of(op) }
}

impl COpType {
    fn funct3(full_opcode: u16) -> (f: u8)
        ensures
            f == c_funct3_of(full_opcode),
    {
        ((full_opcode >> 13) & 0b111) as u8
    }

    pub fn new_cr(full_opcode: u16) -> (r: COpType)
        ensures
            r == spec_new_cr(full_opcode),
    {
        let funct4 = ((full_opcode >> 12) & 0xF) as u8;
        let rd_rs1 = Register::from_index(((full_opcode >> 7) & 0x1F) as usize);
        let rs2 = Register::from_index(((full_opcode >> 2) & 0x1F) as usize);
        COpType::CR { rd_rs1, rs2, funct4 }
    }

    pub fn new_ci(full_opcode: u16) -> (r: COpType)
        ensures
            r == spec_new_ci(full_opcode),
    {
        let funct3 = Self::funct3(full_opcode);
        let rd_rs1 = Register::from_index(((full_opcode >> 7) & 0x1F) as usize);
        COpType::CI { rd_rs1, funct3 }
    }

    pub fn new_css(full_opcode: u16) -> (r: COpType)
        ensures
            r == spec_new_css(full_opcode),
    {
        let funct3 = Self::funct3(full_opcode);
        let rs2 = Register::from_index(((full_opcode >> 2) & 0b1_1111) as usize);
        COpType::CSS { rs2, funct3 }
    }

    pub fn new_ciw(full_opcode: u16) -> (r: COpType)
        ensures
            r == spec_new_ciw(full_opcode),
    {
        let funct3 = Self::funct3(full_opcode);
        let rd = Register::from_rvc(((full_opcode >> 2) & 0b111) as u8);
        COpType::CIW { rd, funct3 }
    }

    pub fn new_cl(full_opcode: u16) -> (r: COpType)
        ensures
            r == spec_new_cl(full_opcode),
    {
        let funct3 = Self::funct3(full_opcode);
        let rd = Register::from_rvc(((full_opcode >> 2) & 0b111) as u8);
        let rs1 = Register::from_rvc(((full_opcode >> 7) & 0b111) as u8);
        COpType::CL { rd, rs1, funct3 }
    }

    pub fn new_cs(full_opcode: u16) -> (r: COpType)
        ensures
            r == spec_new_cs(full_opcode),
    {
        let funct3 = Self::funct3(full_opcode);
        let rs1 = Register::from_rvc(((full_opcode >> 7) & 0b111) as u8);
        let rs2 = Register::from_rvc(((full_opcode >> 2) & 0b111) as u8);
        COpType::CS { rs1, rs2, funct3 }
    }

    pub fn new_cb(full_opcode: u16) -> (r: COpType)
        ensures
            r == spec_new_cb(full_opcode),
    {
        let funct3 = Self::funct3(full_opcode);
        let rs1 = Register::from_rvc(((full_opcode >> 7) & 0b111) as u8);
        COpType::CB { rs1, funct3 }
    }
}

} // verus!
