//! The 16-bit compressed dispatch: the 3-bit funct3 combined with the
//! 2-bit quadrant selects an opcode slot, each slot reads one compressed
//! format and reassembles its deliberately scrambled immediate bits. The
//! CI slot shared by `c.li`, `c.lui` and `c.addi16sp` is disambiguated by
//! the identity of the destination register, the encoding's characteristic
//! irregularity.

pub mod optype;

use vstd::prelude::*;

use crate::compressed::optype::c_funct3_of;
use crate::compressed::optype::c_funct4_of;
use crate::compressed::optype::c_reg_at_2;
use crate::compressed::optype::c_reg_at_7;
use crate::compressed::optype::c_rvc_at_2;
use crate::compressed::optype::c_rvc_at_7;
use crate::error::DecodeError;
use crate::error::Field;
use crate::error::OpClass;
use crate::fields::lemma_two_complement_mod;
use crate::instruction::Instruction;
use crate::register::Register;

pub use optype::COpType;

verus! {

broadcast use crate::fields::lemma_u16_and_mask_bound;

/// The CIW immediate of `c.addi4spn`: an unsigned multiple of 4 assembled
/// from word bits 10:7 (bits 9:6), 12:11 (bits 5:4), 5 (bit 3) and 6
/// (bit 2).
pub open spec fn ciw_imm(op: u16) -> i64 {
    ((((op >> 1) & 0x3C0) | ((op >> 7) & 0x30) | ((op >> 2) & 0x8) | ((op >> 4) & 0x4))) as i64
}

/// The doubleword offset shared by `c.ld` and `c.sd`: an unsigned multiple
/// of 8 assembled from word bits 12:10 (bits 5:3) and 6:5 (bits 7:6).
pub open spec fn cls_imm(op: u16) -> i64 {
    (((op >> 7) & 0x38) | ((op << 1) & 0xC0)) as i64
}

/// The raw 6-bit CI immediate field: word bit 12 above word bits 6:2.
pub open spec fn ci_field(op: u16) -> u16 {
    ((op >> 7) & 0x20) | ((op >> 2) & 0x1F)
}

/// The CI immediate of `c.addi`, `c.li` and `c.lui`: the 6-bit field read
/// as a two's-complement value.
pub open spec fn ci_imm(op: u16) -> i64 {
    if (op >> 12) & 1 == 1 {
        (ci_field(op) - 64) as i64
    } else {
        ci_field(op) as i64
    }
}

/// The CI immediate as `c.lui` keeps it: sign-extended into the unsigned
/// 64-bit container.
pub open spec fn ci_uimm(op: u16) -> u64 {
    ci_imm(op) as u64
}

/// The raw 10-bit `c.addi16sp` immediate field: a multiple of 16 assembled
/// from word bits 6 (bit 4), 2 (bit 5), 5 (bit 6), 4:3 (bits 8:7) and 12
/// (bit 9).
pub open spec fn addi16sp_field(op: u16) -> u16 {
    ((op >> 2) & 0x10) | ((op << 3) & 0x20) | ((op << 1) & 0x40) | ((op << 4) & 0x180) | ((op
        >> 3) & 0x200)
}

/// The `c.addi16sp` immediate: the 10-bit field read as a two's-complement
/// value, always a multiple of 16.
pub open spec fn addi16sp_imm(op: u16) -> i64 {
    if (op >> 12) & 1 == 1 {
        (addi16sp_field(op) - 1024) as i64
    } else {
        addi16sp_field(op) as i64
    }
}

/// The raw 12-bit CJ immediate field: an even value assembled from word
/// bits 5:3 (bits 3:1), 11 (bit 4), 2 (bit 5), 7 (bit 6), 6 (bit 7), 10:9
/// (bits 9:8), 8 (bit 10) and 12 (bit 11).
pub open spec fn cj_field(op: u16) -> u16 {
    ((op >> 2) & 0xE) | ((op >> 7) & 0x10) | ((op << 3) & 0x20) | ((op >> 1) & 0x40) | ((op << 1)
        & 0x80) | ((op >> 1) & 0x300) | ((op << 2) & 0x400) | ((op >> 1) & 0x800)
}

/// The `c.j` jump offset: the 12-bit field read as a two's-complement
/// value, always even.
pub open spec fn cj_imm(op: u16) -> i64 {
    if (op >> 12) & 1 == 1 {
        (cj_field(op) - 4096) as i64
    } else {
        cj_field(op) as i64
    }
}

/// The `c.addi4spn` immediate is zero-extended and scaled: it lies in
/// [0, 1024) and is a multiple of 4.
pub proof fn lemma_ciw_imm(op: u16)
    ensures
        0 <= ciw_imm(op) < 1024,
        ciw_imm(op) % 4 == 0,
{
    assert({
        let f = (((op >> 1) & 0x3C0) | ((op >> 7) & 0x30) | ((op >> 2) & 0x8) | ((op >> 4)
            & 0x4));
        f < 1024 && f % 4 == 0
    }) by (bit_vector);
}

/// The `c.ld`/`c.sd` offset is zero-extended and scaled: it lies in
/// [0, 256) and is a multiple of 8.
pub proof fn lemma_cls_imm(op: u16)
    ensures
        0 <= cls_imm(op) < 256,
        cls_imm(op) % 8 == 0,
{
    assert({
        let f = (((op >> 7) & 0x38) | ((op << 1) & 0xC0));
        f < 256 && f % 8 == 0
    }) by (bit_vector);
}

/// Sign extension of the CI immediate is algebraically correct: the value
/// lies in [-32, 32), is congruent to the raw 6-bit field modulo 64, and
/// is negative exactly when word bit 12 is set.
pub proof fn lemma_ci_imm_sign(op: u16)
    ensures
        -32 <= ci_imm(op) < 32,
        ci_imm(op) as int % 64 == ci_field(op),
        ci_imm(op) < 0 <==> (op >> 12) & 1 == 1,
{
    assert({
        let f = ((op >> 7) & 0x20) | ((op >> 2) & 0x1F);
        f < 64 && ((op >> 12) & 1 == 1 <==> f >= 32)
    }) by (bit_vector);
    lemma_two_complement_mod(ci_field(op) as int, 64);
}

/// Sign extension of the `c.addi16sp` immediate is algebraically correct:
/// the value is a multiple of 16, lies in [-512, 512), is congruent to the
/// raw 10-bit field modulo 1024, and is negative exactly when word bit 12
/// is set.
pub proof fn lemma_addi16sp_imm_sign(op: u16)
    ensures
        -512 <= addi16sp_imm(op) < 512,
        addi16sp_imm(op) % 16 == 0,
        addi16sp_imm(op) as int % 1024 == addi16sp_field(op),
        addi16sp_imm(op) < 0 <==> (op >> 12) & 1 == 1,
{
    assert({
        let f = ((op >> 2) & 0x10) | ((op << 3) & 0x20) | ((op << 1) & 0x40) | ((op << 4)
            & 0x180) | ((op >> 3) & 0x200);
        f < 1024 && f % 16 == 0 && ((op >> 12) & 1 == 1 <==> f >= 512)
    }) by (bit_vector);
    lemma_two_complement_mod(addi16sp_field(op) as int, 1024);
}

/// Sign extension of the `c.j` offset is algebraically correct: the value
/// is even, lies in [-2048, 2048), is congruent to the raw 12-bit field
/// modulo 4096, and is negative exactly when word bit 12 is set.
pub proof fn lemma_cj_imm_sign(op: u16)
    ensures
        -2048 <= cj_imm(op) < 2048,
        cj_imm(op) % 2 == 0,
        cj_imm(op) as int % 4096 == cj_field(op),
        cj_imm(op) < 0 <==> (op >> 12) & 1 == 1,
{
    assert({
        let f = ((op >> 2) & 0xE) | ((op >> 7) & 0x10) | ((op << 3) & 0x20) | ((op >> 1) & 0x40)
            | ((op << 1) & 0x80) | ((op >> 1) & 0x300) | ((op << 2) & 0x400) | ((op >> 1)
            & 0x800);
        f < 4096 && f % 2 == 0 && ((op >> 12) & 1 == 1 <==> f >= 2048)
    }) by (bit_vector);
    lemma_two_complement_mod(cj_field(op) as int, 4096);
}

/// What the `c.addi4spn` slot decodes to: an ADDI off the stack pointer
/// into one of the popular eight; the all-zero immediate is reserved, which
/// also rejects the canonical all-zero illegal word.
pub open spec fn spec_decode_addi4spn(op: u16) -> Result<Instruction, DecodeError> {
    if ciw_imm(op) == 0 {
        Err(DecodeError::Invalid { field: Field::Imm, value: 0 })
    } else {
        Ok(Instruction::Addi { rd: c_rvc_at_2(op), rs1: Register::StackPointer, imm: ciw_imm(op) })
    }
}

/// What the `c.sd` slot decodes to.
pub open spec fn spec_decode_c_sd(op: u16) -> Result<Instruction, DecodeError> {
    Ok(Instruction::Sd { rs1: c_rvc_at_7(op), rs2: c_rvc_at_2(op), imm: cls_imm(op) })
}

/// What the `c.addi` slot decodes to: rd is both source and destination.
pub open spec fn spec_decode_c_addi(op: u16) -> Result<Instruction, DecodeError> {
    Ok(Instruction::Addi { rd: c_reg_at_7(op), rs1: c_reg_at_7(op), imm: ci_imm(op) })
}

/// What the shared `c.li`/`c.lui`/`c.addi16sp` slots decode to. Both
/// require a non-zero destination. Under funct3 `011` the stack pointer as
/// destination reinterprets the same bits as the `c.addi16sp` immediate
/// shape; any other destination is `c.lui`.
pub open spec fn spec_decode_li_lui_addi16spn(op: u16) -> Result<Instruction, DecodeError> {
    let f3 = c_funct3_of(op);
    let rd = c_reg_at_7(op);
    if f3 == 0b010 {
        if rd == Register::Zero {
            Err(DecodeError::Invalid { field: Field::RdRs1, value: 0 })
        } else {
            Ok(Instruction::Addi { rd, rs1: Register::Zero, imm: ci_imm(op) })
        }
    } else if f3 == 0b011 {
        if rd == Register::Zero {
            Err(DecodeError::Invalid { field: Field::RdRs1, value: 0 })
        } else if rd == Register::StackPointer {
            Ok(
                Instruction::Addi {
                    rd: Register::StackPointer,
                    rs1: Register::StackPointer,
                    imm: addi16sp_imm(op),
                },
            )
        } else {
            Ok(Instruction::Lui { rd, uimm: ci_uimm(op) })
        }
    } else {
        Err(DecodeError::Invalid { field: Field::Funct3, value: f3 as u64 })
    }
}

/// What the `c.ld` slot decodes to.
pub open spec fn spec_decode_c_ld(op: u16) -> Result<Instruction, DecodeError> {
    Ok(Instruction::Ld { rd: c_rvc_at_2(op), rs1: c_rvc_at_7(op), imm: cls_imm(op) })
}

/// What the CR jump/move slot decodes to: funct4 `1000` is `c.jr` or
/// `c.mv`, funct4 `1001` is `c.ebreak`, `c.jalr` or `c.add`, each picked by
/// which register operands are zero.
pub open spec fn spec_decode_c_jr(op: u16) -> Result<Instruction, DecodeError> {
    let f4 = c_funct4_of(op);
    let rd_rs1 = c_reg_at_7(op);
    let rs2 = c_reg_at_2(op);
    if f4 == 0b1000 {
        if rd_rs1 == Register::Zero {
            Err(DecodeError::Invalid { field: Field::RdRs1, value: 0 })
        } else if rs2 == Register::Zero {
            Ok(Instruction::Jalr { rd: Register::Zero, rs1: rd_rs1, imm: 0 })
        } else {
            Ok(Instruction::Add { rd: rd_rs1, rs1: Register::Zero, rs2 })
        }
    } else if f4 == 0b1001 {
        if rd_rs1 == Register::Zero {
            Ok(Instruction::Ebreak)
        } else if rs2 == Register::Zero {
            Ok(Instruction::Jalr { rd: Register::ReturnAddress, rs1: rd_rs1, imm: 0 })
        } else {
            Ok(Instruction::Add { rd: rd_rs1, rs1: rd_rs1, rs2 })
        }
    } else {
        Err(DecodeError::Invalid { field: Field::Funct4, value: f4 as u64 })
    }
}

/// What the `c.j` slot decodes to: a jump that discards its link.
pub open spec fn spec_decode_c_j(op: u16) -> Result<Instruction, DecodeError> {
    Ok(Instruction::Jal { rd: Register::Zero, imm: cj_imm(op) })
}

/// The 5-bit slot key of a compressed word: funct3 above the 2-bit
/// quadrant.
pub open spec fn c_slot(op: u16) -> int {
    ((op >> 13) & 0b111) * 4 + (op & 0b11)
}

/// What a compressed word decodes to: the slot key selects among the
/// implemented compressed operations; every other slot is reported
/// unimplemented under its key, so the all-zero word never silently
/// decodes.
pub open spec fn spec_decode_compressed(op: u16) -> Result<Instruction, DecodeError> {
    let slot = c_slot(op);
    if slot == 0b00000 {
        spec_decode_addi4spn(op)
    } else if slot == 0b11100 {
        spec_decode_c_sd(op)
    } else if slot == 0b00001 {
        spec_decode_c_addi(op)
    } else if slot == 0b01001 || slot == 0b01101 {
        spec_decode_li_lui_addi16spn(op)
    } else if slot == 0b01100 {
        spec_decode_c_ld(op)
    } else if slot == 0b10010 {
        spec_decode_c_jr(op)
    } else if slot == 0b10101 {
        spec_decode_c_j(op)
    } else {
        Err(DecodeError::Unimplemented { class: OpClass::Compressed(slot as u8) })
    }
}

fn decode_addi4spn(full_opcode: u16) -> (r: Result<Instruction, DecodeError>)
    ensures
        r == spec_decode_addi4spn(full_opcode),
{
    match COpType::new_ciw(full_opcode) {
        COpType::CIW { rd, funct3: _ } => {
            let imm = ((((full_opcode >> 1) & 0x3C0) | ((full_opcode >> 7) & 0x30) | ((
            full_opcode >> 2) & 0x8) | ((full_opcode >> 4) & 0x4))) as i64;
            if imm == 0 {
                return Err(DecodeError::Invalid { field: Field::Imm, value: 0 });
            }
            Ok(Instruction::Addi { rd, rs1: Register::StackPointer, imm })
        },
        _ => vstd::pervasive::unreached(),
    }
}

fn decode_sd(full_opcode: u16) -> (r: Result<Instruction, DecodeError>)
    ensures
        r == spec_decode_c_sd(full_opcode),
{
    match COpType::new_cs(full_opcode) {
        COpType::CS { rs1, rs2, funct3: _ } => {
            let imm = ((((full_opcode >> 7) & 0x38) | ((full_opcode << 1) & 0xC0))) as i64;
            Ok(Instruction::Sd { rs1, rs2, imm })
        },
        _ => vstd::pervasive::unreached(),
    }
}

fn decode_addi(full_opcode: u16) -> (r: Result<Instruction, DecodeError>)
    ensures
        r == spec_decode_c_addi(full_opcode),
{
    match COpType::new_ci(full_opcode) {
        COpType::CI { rd_rs1, funct3: _ } => {
            let field = ((full_opcode >> 7) & 0x20) | ((full_opcode >> 2) & 0x1F);
            let imm: i64 = if (full_opcode >> 12) & 1 == 1 {
                field as i64 - 64
            } else {
                field as i64
            };
            Ok(Instruction::Addi { rd: rd_rs1, rs1: rd_rs1, imm })
        },
        _ => vstd::pervasive::unreached(),
    }
}

fn decode_li_lui_addi16spn(full_opcode: u16) -> (r: Result<Instruction, DecodeError>)
    ensures
        r == spec_decode_li_lui_addi16spn(full_opcode),
{
    match COpType::new_ci(full_opcode) {
        COpType::CI { rd_rs1, funct3 } => {
            let field = ((full_opcode >> 7) & 0x20) | ((full_opcode >> 2) & 0x1F);
            let imm: i64 = if (full_opcode >> 12) & 1 == 1 {
                field as i64 - 64
            } else {
                field as i64
            };
            match funct3 {
                0b010 => {
                    if rd_rs1 == Register::Zero {
                        return Err(DecodeError::Invalid { field: Field::RdRs1, value: 0 });
                    }
                    Ok(Instruction::Addi { rd: rd_rs1, rs1: Register::Zero, imm })
                },
                0b011 => {
                    if rd_rs1 == Register::Zero {
                        return Err(DecodeError::Invalid { field: Field::RdRs1, value: 0 });
                    }
                    if rd_rs1 == Register::StackPointer {
                        let sp_field = ((full_opcode >> 2) & 0x10) | ((full_opcode << 3) & 0x20)
                            | ((full_opcode << 1) & 0x40) | ((full_opcode << 4) & 0x180) | ((
                        full_opcode >> 3) & 0x200);
                        let sp_imm: i64 = if (full_opcode >> 12) & 1 == 1 {
                            sp_field as i64 - 1024
                        } else {
                            sp_field as i64
                        };
                        Ok(
                            Instruction::Addi {
                                rd: Register::StackPointer,
                                rs1: Register::StackPointer,
                                imm: sp_imm,
                            },
                        )
                    } else {
                        Ok(
                            Instruction::Lui {
                                rd: rd_rs1,
                                uimm: #[verifier::truncate] (imm as u64),
                            },
                        )
                    }
                },
                _ => Err(DecodeError::Invalid { field: Field::Funct3, value: funct3 as u64 }),
            }
        },
        _ => vstd::pervasive::unreached(),
    }
}

fn decode_ld(full_opcode: u16) -> (r: Result<Instruction, DecodeError>)
    ensures
        r == spec_decode_c_ld(full_opcode),
{
    match COpType::new_cl(full_opcode) {
        COpType::CL { rd, rs1, funct3: _ } => {
            let imm = ((((full_opcode >> 7) & 0x38) | ((full_opcode << 1) & 0xC0))) as i64;
            Ok(Instruction::Ld { rd, rs1, imm })
        },
        _ => vstd::pervasive::unreached(),
    }
}

fn decode_jr(full_opcode: u16) -> (r: Result<Instruction, DecodeError>)
    ensures
        r == spec_decode_c_jr(full_opcode),
{
    match COpType::new_cr(full_opcode) {
        COpType::CR { rd_rs1, rs2, funct4 } => match funct4 {
            0b1000 => {
                if rd_rs1 == Register::Zero {
                    Err(DecodeError::Invalid { field: Field::RdRs1, value: 0 })
                } else if rs2 == Register::Zero {
                    Ok(Instruction::Jalr { rd: Register::Zero, rs1: rd_rs1, imm: 0 })
                } else {
                    Ok(Instruction::Add { rd: rd_rs1, rs1: Register::Zero, rs2 })
                }
            },
            0b1001 => {
                if rd_rs1 == Register::Zero {
                    Ok(Instruction::Ebreak)
                } else if rs2 == Register::Zero {
                    Ok(Instruction::Jalr { rd: Register::ReturnAddress, rs1: rd_rs1, imm: 0 })
                } else {
                    Ok(Instruction::Add { rd: rd_rs1, rs1: rd_rs1, rs2 })
                }
            },
            _ => Err(DecodeError::Invalid { field: Field::Funct4, value: funct4 as u64 }),
        },
        _ => vstd::pervasive::unreached(),
    }
}

fn decode_j(full_opcode: u16) -> (r: Result<Instruction, DecodeError>)
    ensures
        r == spec_decode_c_j(full_opcode),
{
    let field = ((full_opcode >> 2) & 0xE) | ((full_opcode >> 7) & 0x10) | ((full_opcode << 3)
        & 0x20) | ((full_opcode >> 1) & 0x40) | ((full_opcode << 1) & 0x80) | ((full_opcode >> 1)
        & 0x300) | ((full_opcode << 2) & 0x400) | ((full_opcode >> 1) & 0x800);
    let imm: i64 = if (full_opcode >> 12) & 1 == 1 {
        field as i64 - 4096
    } else {
        field as i64
    };
    Ok(Instruction::Jal { rd: Register::Zero, imm })
}

pub(crate) fn decode_compressed(full_opcode: u16) -> (r: Result<Instruction, DecodeError>)
    ensures
        r == spec_decode_compressed(full_opcode),
{
    let slot: u16 = ((full_opcode >> 13) & 0b111) * 4 + (full_opcode & 0b11);
    match slot {
        0b00000 => decode_addi4spn(full_opcode),
        0b11100 => decode_sd(full_opcode),
        0b00001 => decode_addi(full_opcode),
        0b01001 | 0b01101 => decode_li_lui_addi16spn(full_opcode),
        0b01100 => decode_ld(full_opcode),
        0b10010 => decode_jr(full_opcode),
        0b10101 => decode_j(full_opcode),
        _ => Err(DecodeError::Unimplemented { class: OpClass::Compressed(slot as u8) }),
    }
}

} // verus!
