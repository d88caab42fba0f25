use riscv_decode::decode;
use riscv_decode::COpType;
use riscv_decode::DecodeError;
use riscv_decode::Field;
use riscv_decode::Instruction;
use riscv_decode::OpClass;
use riscv_decode::Register;

#[test]
fn all_zero_word_is_rejected() {
    // The canonical illegal pattern: the addi4spn slot with a zero immediate
    assert_eq!(decode(0x0000), Err(DecodeError::Invalid { field: Field::Imm, value: 0 }));
}

#[test]
fn c_addi4spn() {
    assert_eq!(
        decode(0x0048),
        Ok(Instruction::Addi {
            rd: Register::ArgumentRetval0,
            rs1: Register::StackPointer,
            imm: 4
        })
    );
    assert_eq!(
        decode(0x1FE8),
        Ok(Instruction::Addi {
            rd: Register::ArgumentRetval0,
            rs1: Register::StackPointer,
            imm: 1020
        })
    );
}

#[test]
fn c_addi() {
    let a0 = Register::ArgumentRetval0;
    assert_eq!(decode(0x0515), Ok(Instruction::Addi { rd: a0, rs1: a0, imm: 5 }));
    assert_eq!(decode(0x157D), Ok(Instruction::Addi { rd: a0, rs1: a0, imm: -1 }));
}

#[test]
fn c_li() {
    assert_eq!(
        decode(0x5501),
        Ok(Instruction::Addi {
            rd: Register::ArgumentRetval0,
            rs1: Register::Zero,
            imm: -32
        })
    );
    // a zero destination is reserved on c.li
    assert_eq!(decode(0x4005), Err(DecodeError::Invalid { field: Field::RdRs1, value: 0 }));
}

#[test]
fn c_lui() {
    assert_eq!(
        decode(0x6505),
        Ok(Instruction::Lui { rd: Register::ArgumentRetval0, uimm: 1 })
    );
    // The 6-bit immediate sign-extends through the unsigned container
    assert_eq!(
        decode(0x757D),
        Ok(Instruction::Lui { rd: Register::ArgumentRetval0, uimm: 0xFFFF_FFFF_FFFF_FFFF })
    );
    // a zero destination is reserved on c.lui
    assert_eq!(decode(0x6005), Err(DecodeError::Invalid { field: Field::RdRs1, value: 0 }));
}

#[test]
fn c_addi16sp() {
    let sp = Register::StackPointer;
    assert_eq!(decode(0x6141), Ok(Instruction::Addi { rd: sp, rs1: sp, imm: 16 }));
    assert_eq!(decode(0x717D), Ok(Instruction::Addi { rd: sp, rs1: sp, imm: -16 }));
}

#[test]
fn c_ld() {
    assert_eq!(
        decode(0x6588),
        Ok(Instruction::Ld {
            rd: Register::ArgumentRetval0,
            rs1: Register::ArgumentRetval1,
            imm: 8
        })
    );
    assert_eq!(
        decode(0x7DE8),
        Ok(Instruction::Ld {
            rd: Register::ArgumentRetval0,
            rs1: Register::ArgumentRetval1,
            imm: 248
        })
    );
}

#[test]
fn c_sd() {
    assert_eq!(
        decode(0xE588),
        Ok(Instruction::Sd {
            rs1: Register::ArgumentRetval1,
            rs2: Register::ArgumentRetval0,
            imm: 8
        })
    );
}

#[test]
fn c_jr_c_mv() {
    assert_eq!(
        decode(0x8502),
        Ok(Instruction::Jalr { rd: Register::Zero, rs1: Register::ArgumentRetval0, imm: 0 })
    );
    assert_eq!(
        decode(0x852E),
        Ok(Instruction::Add {
            rd: Register::ArgumentRetval0,
            rs1: Register::Zero,
            rs2: Register::ArgumentRetval1
        })
    );
    // c.jr with a zero source register is reserved
    assert_eq!(decode(0x8002), Err(DecodeError::Invalid { field: Field::RdRs1, value: 0 }));
}

#[test]
fn c_jalr_c_add_c_ebreak() {
    assert_eq!(decode(0x9002), Ok(Instruction::Ebreak));
    assert_eq!(
        decode(0x9502),
        Ok(Instruction::Jalr {
            rd: Register::ReturnAddress,
            rs1: Register::ArgumentRetval0,
            imm: 0
        })
    );
    assert_eq!(
        decode(0x952E),
        Ok(Instruction::Add {
            rd: Register::ArgumentRetval0,
            rs1: Register::ArgumentRetval0,
            rs2: Register::ArgumentRetval1
        })
    );
}

#[test]
fn c_j() {
    assert_eq!(decode(0xA001), Ok(Instruction::Jal { rd: Register::Zero, imm: 0 }));
    assert_eq!(decode(0xBFFD), Ok(Instruction::Jal { rd: Register::Zero, imm: -2 }));
}

#[test]
fn unimplemented_compressed_slot() {
    assert_eq!(
        decode(0x2000),
        Err(DecodeError::Unimplemented { class: OpClass::Compressed(0b00100) })
    );
}

#[test]
fn only_low_sixteen_bits_reach_the_compressed_path() {
    // High bits of a word routed to the compressed dispatcher are ignored
    assert_eq!(decode(0xFFFF_9002), decode(0x9002));
}

#[test]
fn compressed_format_extraction() {
    assert_eq!(
        COpType::new_ciw(0x0048),
        COpType::CIW { rd: Register::ArgumentRetval0, funct3: 0 }
    );
    assert_eq!(
        COpType::new_ci(0x157D),
        COpType::CI { rd_rs1: Register::ArgumentRetval0, funct3: 0 }
    );
    assert_eq!(
        COpType::new_cr(0x952E),
        COpType::CR {
            rd_rs1: Register::ArgumentRetval0,
            rs2: Register::ArgumentRetval1,
            funct4: 0b1001
        }
    );
    assert_eq!(
        COpType::new_cl(0x6588),
        COpType::CL {
            rd: Register::ArgumentRetval0,
            rs1: Register::ArgumentRetval1,
            funct3: 3
        }
    );
    assert_eq!(
        COpType::new_cs(0xE588),
        COpType::CS {
            rs1: Register::ArgumentRetval1,
            rs2: Register::ArgumentRetval0,
            funct3: 7
        }
    );
    assert_eq!(
        COpType::new_css(0xE586),
        COpType::CSS { rs2: Register::ReturnAddress, funct3: 7 }
    );
    assert_eq!(
        COpType::new_cb(0xC105),
        COpType::CB { rs1: Register::ArgumentRetval0, funct3: 6 }
    );
}
