//! The 32-bit dispatch: a one-shot decision tree from a raw word to an
//! `Instruction` or a `DecodeError`. Bits 6:2 select the opcode class, the
//! class builds its format value, and a fine-grained match on funct3 (and,
//! for register-register classes, funct7 or funct5) picks the exact
//! operation. Words whose low two bits are not `11` are handed to the
//! compressed dispatcher.

use vstd::prelude::*;

use crate::compressed::decode_compressed;
use crate::compressed::spec_decode_compressed;
use crate::csr::lemma_csr_round_trip;
use crate::error::DecodeError;
use crate::error::Field;
use crate::error::OpClass;
use crate::fields::csr_field_of;
use crate::fields::field_i;
use crate::fields::funct3_of;
use crate::fields::funct7_of;
use crate::fields::imm_b_of;
use crate::fields::imm_i_of;
use crate::fields::imm_j_of;
use crate::fields::imm_s_of;
use crate::fields::imm_u_of;
use crate::fields::reg_rd;
use crate::fields::reg_rs1;
use crate::fields::reg_rs2;
use crate::fields::uimm_u_of;
use crate::instruction::spec_fence_flags;
use crate::instruction::FenceFlags;
use crate::instruction::Instruction;
use crate::optype::OpType;
use crate::register::lemma_register_index_round_trip;
use crate::register::Register;

verus! {

broadcast use crate::fields::lemma_u32_and_mask_bound;

/// The rd and rs1 fields of a word side by side, rs1 in the high five bits,
/// as carried by errors that constrain the two registers together.
pub open spec fn rd_rs1_bits(w: u32) -> u64 {
    ((((w >> 15) & 0x1F) << 5) | ((w >> 7) & 0x1F)) as u64
}

/// The 6-bit shift amount of an immediate shift, word bits 25:20.
pub open spec fn shamt6_of(w: u32) -> u64 {
    ((w >> 20) & 0x3F) as u64
}

/// What the LOAD class decodes to: funct3 selects the width and
/// signedness, the I-format immediate is the byte offset.
pub open spec fn spec_decode_load(w: u32) -> Result<Instruction, DecodeError> {
    let f3 = funct3_of(w);
    if f3 == 0b000 {
        Ok(Instruction::Lb { rd: reg_rd(w), rs1: reg_rs1(w), imm: imm_i_of(w) })
    } else if f3 == 0b001 {
        Ok(Instruction::Lh { rd: reg_rd(w), rs1: reg_rs1(w), imm: imm_i_of(w) })
    } else if f3 == 0b010 {
        Ok(Instruction::Lw { rd: reg_rd(w), rs1: reg_rs1(w), imm: imm_i_of(w) })
    } else if f3 == 0b100 {
        Ok(Instruction::Lbu { rd: reg_rd(w), rs1: reg_rs1(w), imm: imm_i_of(w) })
    } else if f3 == 0b101 {
        Ok(Instruction::Lhu { rd: reg_rd(w), rs1: reg_rs1(w), imm: imm_i_of(w) })
    } else if f3 == 0b110 {
        Ok(Instruction::Lwu { rd: reg_rd(w), rs1: reg_rs1(w), imm: imm_i_of(w) })
    } else if f3 == 0b011 {
        Ok(Instruction::Ld { rd: reg_rd(w), rs1: reg_rs1(w), imm: imm_i_of(w) })
    } else {
        Err(DecodeError::Invalid { field: Field::Funct3, value: f3 as u64 })
    }
}

/// What the MISC-MEM class decodes to: rd and rs1 must both be the zero
/// register; funct3 0 is FENCE with its predecessor/successor flag sets,
/// funct3 1 is FENCE.I.
pub open spec fn spec_decode_misc_mem(w: u32) -> Result<Instruction, DecodeError> {
    if reg_rd(w) != Register::Zero || reg_rs1(w) != Register::Zero {
        Err(DecodeError::Invalid { field: Field::RdRs1, value: rd_rs1_bits(w) })
    } else if funct3_of(w) == 0b000 {
        Ok(
            Instruction::Fence {
                pred: spec_fence_flags(((w >> 24) & 0xF) as u8),
                succ: spec_fence_flags(((w >> 20) & 0xF) as u8),
            },
        )
    } else if funct3_of(w) == 0b001 {
        Ok(Instruction::FenceI)
    } else {
        Err(DecodeError::Invalid { field: Field::Funct3, value: funct3_of(w) as u64 })
    }
}

/// What the OP-IMM class decodes to: funct3 selects the ALU operation on
/// rs1 and the I-format immediate; funct3 1 and 5 are the immediate shifts,
/// whose high immediate bits discriminate logical from arithmetic right
/// shifts and whose low six bits are the shift amount.
pub open spec fn spec_decode_op_imm(w: u32) -> Result<Instruction, DecodeError> {
    let f3 = funct3_of(w);
    if f3 == 0b000 {
        Ok(Instruction::Addi { rd: reg_rd(w), rs1: reg_rs1(w), imm: imm_i_of(w) })
    } else if f3 == 0b010 {
        Ok(Instruction::Slti { rd: reg_rd(w), rs1: reg_rs1(w), imm: imm_i_of(w) })
    } else if f3 == 0b011 {
        Ok(Instruction::Sltiu { rd: reg_rd(w), rs1: reg_rs1(w), imm: imm_i_of(w) })
    } else if f3 == 0b100 {
        Ok(Instruction::Xori { rd: reg_rd(w), rs1: reg_rs1(w), imm: imm_i_of(w) })
    } else if f3 == 0b110 {
        Ok(Instruction::Ori { rd: reg_rd(w), rs1: reg_rs1(w), imm: imm_i_of(w) })
    } else if f3 == 0b111 {
        Ok(Instruction::Andi { rd: reg_rd(w), rs1: reg_rs1(w), imm: imm_i_of(w) })
    } else if f3 == 0b001 {
        Ok(Instruction::Slli { rd: reg_rd(w), rs1: reg_rs1(w), shamt: shamt6_of(w) })
    } else if (w >> 26) == 0b000000 {
        Ok(Instruction::Srli { rd: reg_rd(w), rs1: reg_rs1(w), shamt: shamt6_of(w) })
    } else if (w >> 26) == 0b010000 {
        Ok(Instruction::Srai { rd: reg_rd(w), rs1: reg_rs1(w), shamt: shamt6_of(w) })
    } else {
        Err(DecodeError::Invalid { field: Field::Imm, value: field_i(w) as u64 })
    }
}

/// The relabelling that OP-IMM-32 applies to an OP-IMM decode: the partial
/// map to the 32-bit-result counterpart of each variant valid there, with
/// shift amounts above 31 reserved; everything else is invalid, reported
/// under the funct3 that selected it.
pub open spec fn spec_relabel_op_imm_32(inst: Instruction, f3: u8) -> Result<
    Instruction,
    DecodeError,
> {
    match inst {
        Instruction::Addi { rd, rs1, imm } => Ok(Instruction::Addiw { rd, rs1, imm }),
        Instruction::Slli { rd, rs1, shamt } => if shamt & 0b100000 != 0 {
            Err(DecodeError::Invalid { field: Field::Shamt, value: shamt })
        } else {
            Ok(Instruction::Slliw { rd, rs1, shamt })
        },
        Instruction::Srli { rd, rs1, shamt } => if shamt & 0b100000 != 0 {
            Err(DecodeError::Invalid { field: Field::Shamt, value: shamt })
        } else {
            Ok(Instruction::Srliw { rd, rs1, shamt })
        },
        Instruction::Srai { rd, rs1, shamt } => if shamt & 0b100000 != 0 {
            Err(DecodeError::Invalid { field: Field::Shamt, value: shamt })
        } else {
            Ok(Instruction::Sraiw { rd, rs1, shamt })
        },
        _ => Err(DecodeError::Invalid { field: Field::Funct3, value: f3 as u64 }),
    }
}

/// What the OP-IMM-32 class decodes to: the OP-IMM decode relabelled to its
/// word-narrowed counterpart.
pub open spec fn spec_decode_op_imm_32(w: u32) -> Result<Instruction, DecodeError> {
    match spec_decode_op_imm(w) {
        Ok(inst) => spec_relabel_op_imm_32(inst, funct3_of(w)),
        Err(e) => Err(e),
    }
}

/// What the STORE class decodes to: funct3 selects the width, the S-format
/// immediate is the byte offset.
pub open spec fn spec_decode_store(w: u32) -> Result<Instruction, DecodeError> {
    let f3 = funct3_of(w);
    if f3 == 0b000 {
        Ok(Instruction::Sb { rs1: reg_rs1(w), rs2: reg_rs2(w), imm: imm_s_of(w) })
    } else if f3 == 0b001 {
        Ok(Instruction::Sh { rs1: reg_rs1(w), rs2: reg_rs2(w), imm: imm_s_of(w) })
    } else if f3 == 0b010 {
        Ok(Instruction::Sw { rs1: reg_rs1(w), rs2: reg_rs2(w), imm: imm_s_of(w) })
    } else if f3 == 0b011 {
        Ok(Instruction::Sd { rs1: reg_rs1(w), rs2: reg_rs2(w), imm: imm_s_of(w) })
    } else {
        Err(DecodeError::Invalid { field: Field::Funct3, value: f3 as u64 })
    }
}

/// The acquire bit of an AMO word, funct7 bit 1.
pub open spec fn aq_of(w: u32) -> bool {
    (w >> 26) & 1 == 1
}

/// The release bit of an AMO word, funct7 bit 0.
pub open spec fn rl_of(w: u32) -> bool {
    (w >> 25) & 1 == 1
}

/// The funct5 discriminator of an AMO word, funct7 bits 6:2.
pub open spec fn funct5_of(w: u32) -> u8 {
    ((w >> 27) & 0b1_1111) as u8
}

/// What the AMO class decodes to: only the 32-bit add and swap operations,
/// selected by funct5 under funct3 `010`, with the acquire and release
/// ordering bits.
pub open spec fn spec_decode_amo(w: u32) -> Result<Instruction, DecodeError> {
    if funct3_of(w) == 0b010 {
        if funct5_of(w) == 0b00000 {
            Ok(
                Instruction::Amoaddw {
                    rd: reg_rd(w),
                    rs1: reg_rs1(w),
                    rs2: reg_rs2(w),
                    aq: aq_of(w),
                    rl: rl_of(w),
                },
            )
        } else if funct5_of(w) == 0b00001 {
            Ok(
                Instruction::Amoswapw {
                    rd: reg_rd(w),
                    rs1: reg_rs1(w),
                    rs2: reg_rs2(w),
                    aq: aq_of(w),
                    rl: rl_of(w),
                },
            )
        } else {
            Err(DecodeError::Invalid { field: Field::Funct5, value: funct5_of(w) as u64 })
        }
    } else {
        Err(DecodeError::Invalid { field: Field::Funct3, value: funct3_of(w) as u64 })
    }
}

/// What the OP class decodes to: funct7 selects the base, negated or
/// multiply group and funct3 the operation within it.
pub open spec fn spec_decode_op(w: u32) -> Result<Instruction, DecodeError> {
    let f3 = funct3_of(w);
    let f7 = funct7_of(w);
    if f7 == 0b0000000 {
        if f3 == 0b000 {
            Ok(Instruction::Add { rd: reg_rd(w), rs1: reg_rs1(w), rs2: reg_rs2(w) })
        } else if f3 == 0b001 {
            Ok(Instruction::Sll { rd: reg_rd(w), rs1: reg_rs1(w), rs2: reg_rs2(w) })
        } else if f3 == 0b010 {
            Ok(Instruction::Slt { rd: reg_rd(w), rs1: reg_rs1(w), rs2: reg_rs2(w) })
        } else if f3 == 0b011 {
            Ok(Instruction::Sltu { rd: reg_rd(w), rs1: reg_rs1(w), rs2: reg_rs2(w) })
        } else if f3 == 0b100 {
            Ok(Instruction::Xor { rd: reg_rd(w), rs1: reg_rs1(w), rs2: reg_rs2(w) })
        } else if f3 == 0b101 {
            Ok(Instruction::Srl { rd: reg_rd(w), rs1: reg_rs1(w), rs2: reg_rs2(w) })
        } else if f3 == 0b110 {
            Ok(Instruction::Or { rd: reg_rd(w), rs1: reg_rs1(w), rs2: reg_rs2(w) })
        } else {
            Ok(Instruction::And { rd: reg_rd(w), rs1: reg_rs1(w), rs2: reg_rs2(w) })
        }
    } else if f7 == 0b0100000 {
        if f3 == 0b000 {
            Ok(Instruction::Sub { rd: reg_rd(w), rs1: reg_rs1(w), rs2: reg_rs2(w) })
        } else if f3 == 0b101 {
            Ok(Instruction::Sra { rd: reg_rd(w), rs1: reg_rs1(w), rs2: reg_rs2(w) })
        } else {
            Err(DecodeError::Invalid { field: Field::Funct3, value: f3 as u64 })
        }
    } else if f7 == 0b0000001 {
        if f3 == 0b000 {
            Ok(Instruction::Mul { rd: reg_rd(w), rs1: reg_rs1(w), rs2: reg_rs2(w) })
        } else if f3 == 0b001 {
            Ok(Instruction::Mulh { rd: reg_rd(w), rs1: reg_rs1(w), rs2: reg_rs2(w) })
        } else if f3 == 0b010 {
            Ok(Instruction::Mulhsu { rd: reg_rd(w), rs1: reg_rs1(w), rs2: reg_rs2(w) })
        } else if f3 == 0b011 {
            Ok(Instruction::Mulhu { rd: reg_rd(w), rs1: reg_rs1(w), rs2: reg_rs2(w) })
        } else if f3 == 0b100 {
            Ok(Instruction::Div { rd: reg_rd(w), rs1: reg_rs1(w), rs2: reg_rs2(w) })
        } else if f3 == 0b101 {
            Ok(Instruction::Divu { rd: reg_rd(w), rs1: reg_rs1(w), rs2: reg_rs2(w) })
        } else if f3 == 0b110 {
            Ok(Instruction::Rem { rd: reg_rd(w), rs1: reg_rs1(w), rs2: reg_rs2(w) })
        } else {
            Ok(Instruction::Remu { rd: reg_rd(w), rs1: reg_rs1(w), rs2: reg_rs2(w) })
        }
    } else {
        Err(DecodeError::Invalid { field: Field::Funct7, value: f7 as u64 })
    }
}

/// What the LUI class decodes to: the U-format immediate kept unsigned and
/// in place.
pub open spec fn spec_decode_lui(w: u32) -> Result<Instruction, DecodeError> {
    Ok(Instruction::Lui { rd: reg_rd(w), uimm: uimm_u_of(w) })
}

/// The relabelling that OP-32 applies to an OP decode: the partial map to
/// the 32-bit-result counterpart of each variant valid there; everything
/// else is invalid, reported under the funct3 that selected it.
pub open spec fn spec_relabel_op_32(inst: Instruction, f3: u8) -> Result<
    Instruction,
    DecodeError,
> {
    match inst {
        Instruction::Add { rd, rs1, rs2 } => Ok(Instruction::Addw { rd, rs1, rs2 }),
        Instruction::Sub { rd, rs1, rs2 } => Ok(Instruction::Subw { rd, rs1, rs2 }),
        Instruction::Sll { rd, rs1, rs2 } => Ok(Instruction::Sllw { rd, rs1, rs2 }),
        Instruction::Srl { rd, rs1, rs2 } => Ok(Instruction::Srlw { rd, rs1, rs2 }),
        Instruction::Sra { rd, rs1, rs2 } => Ok(Instruction::Sraw { rd, rs1, rs2 }),
        Instruction::Mul { rd, rs1, rs2 } => Ok(Instruction::Mulw { rd, rs1, rs2 }),
        Instruction::Div { rd, rs1, rs2 } => Ok(Instruction::Divw { rd, rs1, rs2 }),
        Instruction::Divu { rd, rs1, rs2 } => Ok(Instruction::Divuw { rd, rs1, rs2 }),
        Instruction::Rem { rd, rs1, rs2 } => Ok(Instruction::Remw { rd, rs1, rs2 }),
        Instruction::Remu { rd, rs1, rs2 } => Ok(Instruction::Remuw { rd, rs1, rs2 }),
        _ => Err(DecodeError::Invalid { field: Field::Funct3, value: f3 as u64 }),
    }
}

/// What the OP-32 class decodes to: the OP decode relabelled to its
/// word-narrowed counterpart.
pub open spec fn spec_decode_op_32(w: u32) -> Result<Instruction, DecodeError> {
    match spec_decode_op(w) {
        Ok(inst) => spec_relabel_op_32(inst, funct3_of(w)),
        Err(e) => Err(e),
    }
}

/// What the BRANCH class decodes to: funct3 selects the comparison, the
/// B-format immediate is the even branch offset.
pub open spec fn spec_decode_branch(w: u32) -> Result<Instruction, DecodeError> {
    let f3 = funct3_of(w);
    if f3 == 0b000 {
        Ok(Instruction::Beq { rs1: reg_rs1(w), rs2: reg_rs2(w), imm: imm_b_of(w) })
    } else if f3 == 0b001 {
        Ok(Instruction::Bne { rs1: reg_rs1(w), rs2: reg_rs2(w), imm: imm_b_of(w) })
    } else if f3 == 0b100 {
        Ok(Instruction::Blt { rs1: reg_rs1(w), rs2: reg_rs2(w), imm: imm_b_of(w) })
    } else if f3 == 0b101 {
        Ok(Instruction::Bge { rs1: reg_rs1(w), rs2: reg_rs2(w), imm: imm_b_of(w) })
    } else if f3 == 0b110 {
        Ok(Instruction::Bltu { rs1: reg_rs1(w), rs2: reg_rs2(w), imm: imm_b_of(w) })
    } else if f3 == 0b111 {
        Ok(Instruction::Bgeu { rs1: reg_rs1(w), rs2: reg_rs2(w), imm: imm_b_of(w) })
    } else {
        Err(DecodeError::Invalid { field: Field::Funct3, value: f3 as u64 })
    }
}

/// What the JALR class decodes to: funct3 must be zero; the I-format
/// immediate is the target offset.
pub open spec fn spec_decode_jalr(w: u32) -> Result<Instruction, DecodeError> {
    if funct3_of(w) == 0b000 {
        Ok(Instruction::Jalr { rd: reg_rd(w), rs1: reg_rs1(w), imm: imm_i_of(w) })
    } else {
        Err(DecodeError::Invalid { field: Field::Funct3, value: funct3_of(w) as u64 })
    }
}

/// What the JAL class decodes to: the J-format immediate is the even jump
/// offset.
pub open spec fn spec_decode_jal(w: u32) -> Result<Instruction, DecodeError> {
    Ok(Instruction::Jal { rd: reg_rd(w), imm: imm_j_of(w) })
}

/// What the SYSTEM class decodes to. Funct3 zero requires rd and rs1 to be
/// the zero register and selects among the six no-operand system
/// operations by the exact value of the 12-bit immediate. Every other
/// funct3 but 4 is a CSR read-modify-write: the register forms carry rs1,
/// the immediate forms carry the raw rs1 field as a 5-bit unsigned
/// immediate.
pub open spec fn spec_decode_system(w: u32) -> Result<Instruction, DecodeError> {
    let f3 = funct3_of(w);
    let a = csr_field_of(w);
    if f3 == 0b000 {
        if reg_rd(w) != Register::Zero || reg_rs1(w) != Register::Zero {
            Err(DecodeError::Invalid { field: Field::RdRs1, value: rd_rs1_bits(w) })
        } else if a == 0x000 {
            Ok(Instruction::Ecall)
        } else if a == 0x001 {
            Ok(Instruction::Ebreak)
        } else if a == 0x002 {
            Ok(Instruction::Uret)
        } else if a == 0x102 {
            Ok(Instruction::Sret)
        } else if a == 0x105 {
            Ok(Instruction::Wfi)
        } else if a == 0x302 {
            Ok(Instruction::Mret)
        } else {
            Err(DecodeError::Invalid { field: Field::Imm, value: a as u64 })
        }
    } else if f3 == 0b001 {
        Ok(
            Instruction::Csrrw {
                rd: reg_rd(w),
                rs1: reg_rs1(w),
                csr: crate::csr::spec_from_address(a as u64),
            },
        )
    } else if f3 == 0b010 {
        Ok(
            Instruction::Csrrs {
                rd: reg_rd(w),
                rs1: reg_rs1(w),
                csr: crate::csr::spec_from_address(a as u64),
            },
        )
    } else if f3 == 0b011 {
        Ok(
            Instruction::Csrrc {
                rd: reg_rd(w),
                rs1: reg_rs1(w),
                csr: crate::csr::spec_from_address(a as u64),
            },
        )
    } else if f3 == 0b101 {
        Ok(
            Instruction::Csrrwi {
                rd: reg_rd(w),
                csr: crate::csr::spec_from_address(a as u64),
                imm: ((w >> 15) & 0x1F) as i64,
            },
        )
    } else if f3 == 0b110 {
        Ok(
            Instruction::Csrrsi {
                rd: reg_rd(w),
                csr: crate::csr::spec_from_address(a as u64),
                imm: ((w >> 15) & 0x1F) as i64,
            },
        )
    } else if f3 == 0b111 {
        Ok(
            Instruction::Csrrci {
                rd: reg_rd(w),
                csr: crate::csr::spec_from_address(a as u64),
                imm: ((w >> 15) & 0x1F) as i64,
            },
        )
    } else {
        Err(DecodeError::Invalid { field: Field::Funct3, value: f3 as u64 })
    }
}

/// What a word whose low two bits are `11` decodes to: bits 6:2 select the
/// opcode class; the classes this decoder does not implement are reported
/// under their names.
pub open spec fn spec_decode32(w: u32) -> Result<Instruction, DecodeError> {
    let class = (w >> 2) & 0b1_1111;
    if class == 0b00000 {
        spec_decode_load(w)
    } else if class == 0b00001 {
        Err(DecodeError::Unimplemented { class: OpClass::LoadFp })
    } else if class == 0b00010 {
        Err(DecodeError::Unimplemented { class: OpClass::Custom0 })
    } else if class == 0b00011 {
        spec_decode_misc_mem(w)
    } else if class == 0b00100 {
        spec_decode_op_imm(w)
    } else if class == 0b00101 {
        Ok(Instruction::Auipc { rd: reg_rd(w), imm: imm_u_of(w) })
    } else if class == 0b00110 {
        spec_decode_op_imm_32(w)
    } else if class == 0b00111 {
        Err(DecodeError::Unimplemented { class: OpClass::Width48 })
    } else if class == 0b01000 {
        spec_decode_store(w)
    } else if class == 0b01001 {
        Err(DecodeError::Unimplemented { class: OpClass::StoreFp })
    } else if class == 0b01010 {
        Err(DecodeError::Unimplemented { class: OpClass::Custom1 })
    } else if class == 0b01011 {
        spec_decode_amo(w)
    } else if class == 0b01100 {
        spec_decode_op(w)
    } else if class == 0b01101 {
        spec_decode_lui(w)
    } else if class == 0b01110 {
        spec_decode_op_32(w)
    } else if class == 0b01111 {
        Err(DecodeError::Unimplemented { class: OpClass::Width64 })
    } else if class == 0b10000 {
        Err(DecodeError::Unimplemented { class: OpClass::Madd })
    } else if class == 0b10001 {
        Err(DecodeError::Unimplemented { class: OpClass::Msub })
    } else if class == 0b10010 {
        Err(DecodeError::Unimplemented { class: OpClass::Nmsub })
    } else if class == 0b10011 {
        Err(DecodeError::Unimplemented { class: OpClass::Nmadd })
    } else if class == 0b10100 {
        Err(DecodeError::Unimplemented { class: OpClass::OpFp })
    } else if class == 0b10101 {
        Err(DecodeError::Unimplemented { class: OpClass::Reserved })
    } else if class == 0b10110 {
        Err(DecodeError::Unimplemented { class: OpClass::Custom2 })
    } else if class == 0b10111 {
        Err(DecodeError::Unimplemented { class: OpClass::Width48 })
    } else if class == 0b11000 {
        spec_decode_branch(w)
    } else if class == 0b11001 {
        spec_decode_jalr(w)
    } else if class == 0b11010 {
        Err(DecodeError::Unimplemented { class: OpClass::Reserved })
    } else if class == 0b11011 {
        spec_decode_jal(w)
    } else if class == 0b11100 {
        spec_decode_system(w)
    } else if class == 0b11101 {
        Err(DecodeError::Unimplemented { class: OpClass::Reserved })
    } else if class == 0b11110 {
        Err(DecodeError::Unimplemented { class: OpClass::Custom3 })
    } else {
        Err(DecodeError::Unimplemented { class: OpClass::Width80 })
    }
}

/// What any word decodes to: the 32-bit dispatch when the low two bits are
/// `11`, otherwise the compressed dispatch over the low 16 bits.
pub open spec fn spec_decode(w: u32) -> Result<Instruction, DecodeError> {
    if w & 0b11 == 0b11 {
        spec_decode32(w)
    } else {
        spec_decode_compressed((w & 0xFFFF) as u16)
    }
}

fn decode_load(full_opcode: u32) -> (r: Result<Instruction, DecodeError>)
    ensures
        r == spec_decode_load(full_opcode),
{
    match OpType::new_load(full_opcode) {
        OpType::Load { rd, rs1, funct3, imm } => match funct3 {
            0b000 => Ok(Instruction::Lb { rd, rs1, imm }),
            0b001 => Ok(Instruction::Lh { rd, rs1, imm }),
            0b010 => Ok(Instruction::Lw { rd, rs1, imm }),
            0b100 => Ok(Instruction::Lbu { rd, rs1, imm }),
            0b101 => Ok(Instruction::Lhu { rd, rs1, imm }),
            0b110 => Ok(Instruction::Lwu { rd, rs1, imm }),
            0b011 => Ok(Instruction::Ld { rd, rs1, imm }),
            _ => Err(DecodeError::Invalid { field: Field::Funct3, value: funct3 as u64 }),
        },
        _ => vstd::pervasive::unreached(),
    }
}

fn decode_misc_mem(full_opcode: u32) -> (r: Result<Instruction, DecodeError>)
    ensures
        r == spec_decode_misc_mem(full_opcode),
{
    match OpType::new_i(full_opcode) {
        OpType::I { rd, rs1, funct3, imm: _ } => {
            if rd != Register::Zero || rs1 != Register::Zero {
                return Err(
                    DecodeError::Invalid {
                        field: Field::RdRs1,
                        value: ((((full_opcode >> 15) & 0x1F) << 5) | ((full_opcode >> 7)
                            & 0x1F)) as u64,
                    },
                );
            }
            match funct3 {
                0b000 => {
                    let succ = FenceFlags::from_bits(((full_opcode >> 20) & 0b1111) as u8);
                    let pred = FenceFlags::from_bits(((full_opcode >> 24) & 0b1111) as u8);
                    Ok(Instruction::Fence { pred, succ })
                },
                0b001 => Ok(Instruction::FenceI),
                _ => Err(DecodeError::Invalid { field: Field::Funct3, value: funct3 as u64 }),
            }
        },
        _ => vstd::pervasive::unreached(),
    }
}

fn decode_op_imm(full_opcode: u32) -> (r: Result<Instruction, DecodeError>)
    ensures
        r == spec_decode_op_imm(full_opcode),
{
    match OpType::new_i(full_opcode) {
        OpType::I { rd, rs1, funct3, imm } => match funct3 {
            0b000 => Ok(Instruction::Addi { rd, rs1, imm }),
            0b010 => Ok(Instruction::Slti { rd, rs1, imm }),
            0b011 => Ok(Instruction::Sltiu { rd, rs1, imm }),
            0b100 => Ok(Instruction::Xori { rd, rs1, imm }),
            0b110 => Ok(Instruction::Ori { rd, rs1, imm }),
            0b111 => Ok(Instruction::Andi { rd, rs1, imm }),
            0b001 => Ok(
                Instruction::Slli { rd, rs1, shamt: ((full_opcode >> 20) & 0b11_1111) as u64 },
            ),
            0b101 => match full_opcode >> 26 {
                0b000000 => Ok(
                    Instruction::Srli {
                        rd,
                        rs1,
                        shamt: ((full_opcode >> 20) & 0b11_1111) as u64,
                    },
                ),
                0b010000 => Ok(
                    Instruction::Srai {
                        rd,
                        rs1,
                        shamt: ((full_opcode >> 20) & 0b11_1111) as u64,
                    },
                ),
                _ => Err(
                    DecodeError::Invalid {
                        field: Field::Imm,
                        value: ((full_opcode >> 20) & 0xFFF) as u64,
                    },
                ),
            },
            _ => vstd::pervasive::unreached(),
        },
        _ => vstd::pervasive::unreached(),
    }
}

fn relabel_op_imm_32(inst: Instruction, funct3: u8) -> (r: Result<Instruction, DecodeError>)
    ensures
        r == spec_relabel_op_imm_32(inst, funct3),
{
    match inst {
        Instruction::Addi { rd, rs1, imm } => Ok(Instruction::Addiw { rd, rs1, imm }),
        Instruction::Slli { rd, rs1, shamt } => {
            if shamt & 0b100000 != 0 {
                return Err(DecodeError::Invalid { field: Field::Shamt, value: shamt });
            }
            Ok(Instruction::Slliw { rd, rs1, shamt })
        },
        Instruction::Srli { rd, rs1, shamt } => {
            if shamt & 0b100000 != 0 {
                return Err(DecodeError::Invalid { field: Field::Shamt, value: shamt });
            }
            Ok(Instruction::Srliw { rd, rs1, shamt })
        },
        Instruction::Srai { rd, rs1, shamt } => {
            if shamt & 0b100000 != 0 {
                return Err(DecodeError::Invalid { field: Field::Shamt, value: shamt });
            }
            Ok(Instruction::Sraiw { rd, rs1, shamt })
        },
        _ => Err(DecodeError::Invalid { field: Field::Funct3, value: funct3 as u64 }),
    }
}

fn decode_op_imm_32(full_opcode: u32) -> (r: Result<Instruction, DecodeError>)
    ensures
        r == spec_decode_op_imm_32(full_opcode),
{
    match decode_op_imm(full_opcode) {
        Ok(inst) => relabel_op_imm_32(inst, ((full_opcode >> 12) & 0b0111) as u8),
        Err(e) => Err(e),
    }
}

fn decode_store(full_opcode: u32) -> (r: Result<Instruction, DecodeError>)
    ensures
        r == spec_decode_store(full_opcode),
{
    match OpType::new_s(full_opcode) {
        OpType::S { rs1, rs2, funct3, imm } => match funct3 {
            0b000 => Ok(Instruction::Sb { rs1, rs2, imm }),
            0b001 => Ok(Instruction::Sh { rs1, rs2, imm }),
            0b010 => Ok(Instruction::Sw { rs1, rs2, imm }),
            0b011 => Ok(Instruction::Sd { rs1, rs2, imm }),
            _ => Err(DecodeError::Invalid { field: Field::Funct3, value: funct3 as u64 }),
        },
        _ => vstd::pervasive::unreached(),
    }
}

fn decode_amo(full_opcode: u32) -> (r: Result<Instruction, DecodeError>)
    ensures
        r == spec_decode_amo(full_opcode),
{
    match OpType::new_r(full_opcode) {
        OpType::R { rd, rs1, rs2, funct3, funct7: _ } => {
            let funct5 = ((full_opcode >> 27) & 0b1_1111) as u8;
            let aq = (full_opcode >> 26) & 1 == 1;
            let rl = (full_opcode >> 25) & 1 == 1;
            match funct3 {
                0b010 => match funct5 {
                    0b00000 => Ok(Instruction::Amoaddw { rd, rs1, rs2, aq, rl }),
                    0b00001 => Ok(Instruction::Amoswapw { rd, rs1, rs2, aq, rl }),
                    _ => Err(DecodeError::Invalid { field: Field::Funct5, value: funct5 as u64 }),
                },
                _ => Err(DecodeError::Invalid { field: Field::Funct3, value: funct3 as u64 }),
            }
        },
        _ => vstd::pervasive::unreached(),
    }
}

fn decode_op(full_opcode: u32) -> (r: Result<Instruction, DecodeError>)
    ensures
        r == spec_decode_op(full_opcode),
{
    match OpType::new_r(full_opcode) {
        OpType::R { rd, rs1, rs2, funct3, funct7 } => match funct7 {
            0b0000000 => match funct3 {
                0b000 => Ok(Instruction::Add { rd, rs1, rs2 }),
                0b001 => Ok(Instruction::Sll { rd, rs1, rs2 }),
                0b010 => Ok(Instruction::Slt { rd, rs1, rs2 }),
                0b011 => Ok(Instruction::Sltu { rd, rs1, rs2 }),
                0b100 => Ok(Instruction::Xor { rd, rs1, rs2 }),
                0b101 => Ok(Instruction::Srl { rd, rs1, rs2 }),
                0b110 => Ok(Instruction::Or { rd, rs1, rs2 }),
                0b111 => Ok(Instruction::And { rd, rs1, rs2 }),
                _ => vstd::pervasive::unreached(),
            },
            0b0100000 => match funct3 {
                0b000 => Ok(Instruction::Sub { rd, rs1, rs2 }),
                0b101 => Ok(Instruction::Sra { rd, rs1, rs2 }),
                _ => Err(DecodeError::Invalid { field: Field::Funct3, value: funct3 as u64 }),
            },
            0b0000001 => match funct3 {
                0b000 => Ok(Instruction::Mul { rd, rs1, rs2 }),
                0b001 => Ok(Instruction::Mulh { rd, rs1, rs2 }),
                0b010 => Ok(Instruction::Mulhsu { rd, rs1, rs2 }),
                0b011 => Ok(Instruction::Mulhu { rd, rs1, rs2 }),
                0b100 => Ok(Instruction::Div { rd, rs1, rs2 }),
                0b101 => Ok(Instruction::Divu { rd, rs1, rs2 }),
                0b110 => Ok(Instruction::Rem { rd, rs1, rs2 }),
                0b111 => Ok(Instruction::Remu { rd, rs1, rs2 }),
                _ => vstd::pervasive::unreached(),
            },
            _ => Err(DecodeError::Invalid { field: Field::Funct7, value: funct7 as u64 }),
        },
        _ => vstd::pervasive::unreached(),
    }
}

fn decode_lui(full_opcode: u32) -> (r: Result<Instruction, DecodeError>)
    ensures
        r == spec_decode_lui(full_opcode),
{
    match OpType::new_lui(full_opcode) {
        OpType::Lui { rd, imm } => Ok(Instruction::Lui { rd, uimm: imm }),
        _ => vstd::pervasive::unreached(),
    }
}

fn relabel_op_32(inst: Instruction, funct3: u8) -> (r: Result<Instruction, DecodeError>)
    ensures
        r == spec_relabel_op_32(inst, funct3),
{
    match inst {
        Instruction::Add { rd, rs1, rs2 } => Ok(Instruction::Addw { rd, rs1, rs2 }),
        Instruction::Sub { rd, rs1, rs2 } => Ok(Instruction::Subw { rd, rs1, rs2 }),
        Instruction::Sll { rd, rs1, rs2 } => Ok(Instruction::Sllw { rd, rs1, rs2 }),
        Instruction::Srl { rd, rs1, rs2 } => Ok(Instruction::Srlw { rd, rs1, rs2 }),
        Instruction::Sra { rd, rs1, rs2 } => Ok(Instruction::Sraw { rd, rs1, rs2 }),
        Instruction::Mul { rd, rs1, rs2 } => Ok(Instruction::Mulw { rd, rs1, rs2 }),
        Instruction::Div { rd, rs1, rs2 } => Ok(Instruction::Divw { rd, rs1, rs2 }),
        Instruction::Divu { rd, rs1, rs2 } => Ok(Instruction::Divuw { rd, rs1, rs2 }),
        Instruction::Rem { rd, rs1, rs2 } => Ok(Instruction::Remw { rd, rs1, rs2 }),
        Instruction::Remu { rd, rs1, rs2 } => Ok(Instruction::Remuw { rd, rs1, rs2 }),
        _ => Err(DecodeError::Invalid { field: Field::Funct3, value: funct3 as u64 }),
    }
}

fn decode_op_32(full_opcode: u32) -> (r: Result<Instruction, DecodeError>)
    ensures
        r == spec_decode_op_32(full_opcode),
{
    match decode_op(full_opcode) {
        Ok(inst) => relabel_op_32(inst, ((full_opcode >> 12) & 0b0111) as u8),
        Err(e) => Err(e),
    }
}

fn decode_branch(full_opcode: u32) -> (r: Result<Instruction, DecodeError>)
    ensures
        r == spec_decode_branch(full_opcode),
{
    match OpType::new_b(full_opcode) {
        OpType::B { rs1, rs2, funct3, imm } => match funct3 {
            0b000 => Ok(Instruction::Beq { rs1, rs2, imm }),
            0b001 => Ok(Instruction::Bne { rs1, rs2, imm }),
            0b100 => Ok(Instruction::Blt { rs1, rs2, imm }),
            0b101 => Ok(Instruction::Bge { rs1, rs2, imm }),
            0b110 => Ok(Instruction::Bltu { rs1, rs2, imm }),
            0b111 => Ok(Instruction::Bgeu { rs1, rs2, imm }),
            _ => Err(DecodeError::Invalid { field: Field::Funct3, value: funct3 as u64 }),
        },
        _ => vstd::pervasive::unreached(),
    }
}

fn decode_jalr(full_opcode: u32) -> (r: Result<Instruction, DecodeError>)
    ensures
        r == spec_decode_jalr(full_opcode),
{
    match OpType::new_jalr(full_opcode) {
        OpType::Jalr { rd, rs1, funct3, imm } => match funct3 {
            0b000 => Ok(Instruction::Jalr { rd, rs1, imm }),
            _ => Err(DecodeError::Invalid { field: Field::Funct3, value: funct3 as u64 }),
        },
        _ => vstd::pervasive::unreached(),
    }
}

fn decode_jal(full_opcode: u32) -> (r: Result<Instruction, DecodeError>)
    ensures
        r == spec_decode_jal(full_opcode),
{
    match OpType::new_jal(full_opcode) {
        OpType::Jal { rd, imm } => Ok(Instruction::Jal { rd, imm }),
        _ => vstd::pervasive::unreached(),
    }
}

fn decode_system(full_opcode: u32) -> (r: Result<Instruction, DecodeError>)
    ensures
        r == spec_decode_system(full_opcode),
{
    match OpType::new_csr(full_opcode) {
        OpType::Csr { rd, rs1, funct3, csr } => match funct3 {
            0b000 => {
                if rd != Register::Zero || rs1 != Register::Zero {
                    return Err(
                        DecodeError::Invalid {
                            field: Field::RdRs1,
                            value: ((((full_opcode >> 15) & 0x1F) << 5) | ((full_opcode >> 7)
                                & 0x1F)) as u64,
                        },
                    );
                }
                let addr = csr.to_address();
                proof {
                    lemma_csr_round_trip(((full_opcode >> 20) & 0xFFF) as u64);
                }
                match addr {
                    0x000 => Ok(Instruction::Ecall),
                    0x001 => Ok(Instruction::Ebreak),
                    0x002 => Ok(Instruction::Uret),
                    0x102 => Ok(Instruction::Sret),
                    0x105 => Ok(Instruction::Wfi),
                    0x302 => Ok(Instruction::Mret),
                    _ => Err(DecodeError::Invalid { field: Field::Imm, value: addr as u64 }),
                }
            },
            0b001 => Ok(Instruction::Csrrw { rd, rs1, csr }),
            0b010 => Ok(Instruction::Csrrs { rd, rs1, csr }),
            0b011 => Ok(Instruction::Csrrc { rd, rs1, csr }),
            0b101 | 0b110 | 0b111 => {
                let imm = rs1.to_index() as i64;
                proof {
                    lemma_register_index_round_trip(((full_opcode >> 15) & 0x1F) as int);
                }
                match funct3 {
                    0b101 => Ok(Instruction::Csrrwi { rd, csr, imm }),
                    0b110 => Ok(Instruction::Csrrsi { rd, csr, imm }),
                    0b111 => Ok(Instruction::Csrrci { rd, csr, imm }),
                    _ => vstd::pervasive::unreached(),
                }
            },
            _ => Err(DecodeError::Invalid { field: Field::Funct3, value: funct3 as u64 }),
        },
        _ => vstd::pervasive::unreached(),
    }
}

/// Decodes one raw word into the operation it encodes, or reports why it
/// cannot be decoded. Decoding is pure: the result is a function of the
/// word alone (for a compressed word, of its low 16 bits alone), and every
/// unimplemented class or constraint-violating field combination is
/// returned as an error, never a panic.
pub fn decode(full_opcode: u32) -> (r: Result<Instruction, DecodeError>)
    ensures
        r == spec_decode(full_opcode),
{
    if full_opcode & 0b11 == 0b11 {
        match (full_opcode >> 2) & 0b1_1111 {
            0b00000 => decode_load(full_opcode),
            0b00001 => Err(DecodeError::Unimplemented { class: OpClass::LoadFp }),
            0b00010 => Err(DecodeError::Unimplemented { class: OpClass::Custom0 }),
            0b00011 => decode_misc_mem(full_opcode),
            0b00100 => decode_op_imm(full_opcode),
            0b00101 => match OpType::new_auipc(full_opcode) {
                OpType::Auipc { rd, imm } => Ok(Instruction::Auipc { rd, imm }),
                _ => vstd::pervasive::unreached(),
            },
            0b00110 => decode_op_imm_32(full_opcode),
            0b00111 => Err(DecodeError::Unimplemented { class: OpClass::Width48 }),
            0b01000 => decode_store(full_opcode),
            0b01001 => Err(DecodeError::Unimplemented { class: OpClass::StoreFp }),
            0b01010 => Err(DecodeError::Unimplemented { class: OpClass::Custom1 }),
            0b01011 => decode_amo(full_opcode),
            0b01100 => decode_op(full_opcode),
            0b01101 => decode_lui(full_opcode),
            0b01110 => decode_op_32(full_opcode),
            0b01111 => Err(DecodeError::Unimplemented { class: OpClass::Width64 }),
            0b10000 => Err(DecodeError::Unimplemented { class: OpClass::Madd }),
            0b10001 => Err(DecodeError::Unimplemented { class: OpClass::Msub }),
            0b10010 => Err(DecodeError::Unimplemented { class: OpClass::Nmsub }),
            0b10011 => Err(DecodeError::Unimplemented { class: OpClass::Nmadd }),
            0b10100 => Err(DecodeError::Unimplemented { class: OpClass::OpFp }),
            0b10101 => Err(DecodeError::Unimplemented { class: OpClass::Reserved }),
            0b10110 => Err(DecodeError::Unimplemented { class: OpClass::Custom2 }),
            0b10111 => Err(DecodeError::Unimplemented { class: OpClass::Width48 }),
            0b11000 => decode_branch(full_opcode),
            0b11001 => decode_jalr(full_opcode),
            0b11010 => Err(DecodeError::Unimplemented { class: OpClass::Reserved }),
            0b11011 => decode_jal(full_opcode),
            0b11100 => decode_system(full_opcode),
            0b11101 => Err(DecodeError::Unimplemented { class: OpClass::Reserved }),
            0b11110 => Err(DecodeError::Unimplemented { class: OpClass::Custom3 }),
            0b11111 => Err(DecodeError::Unimplemented { class: OpClass::Width80 }),
            _ => vstd::pervasive::unreached(),
        }
    } else {
        decode_compressed((full_opcode & 0xFFFF) as u16)
    }
}

/// Decoding is pure and stateless: two results obtained for the same word
/// are identical, whatever other words were decoded in between.
pub proof fn lemma_decode_deterministic(
    w: u32,
    r1: Result<Instruction, DecodeError>,
    r2: Result<Instruction, DecodeError>,
)
    requires
        r1 == spec_decode(w),
        r2 == spec_decode(w),
    ensures
        r1 == r2,
{
}

} // verus!
