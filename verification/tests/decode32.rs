use riscv_decode::decode;
use riscv_decode::CsrRegister;
use riscv_decode::DecodeError;
use riscv_decode::Field;
use riscv_decode::FenceFlags;
use riscv_decode::Instruction;
use riscv_decode::OpClass;
use riscv_decode::Register;

#[test]
fn add() {
    assert_eq!(
        decode(0x00050433),
        Ok(Instruction::Add {
            rd: Register::Saved0,
            rs1: Register::ArgumentRetval0,
            rs2: Register::Zero
        })
    );
}

#[test]
fn addi() {
    assert_eq!(
        decode(0x12358513),
        Ok(Instruction::Addi {
            rd: Register::ArgumentRetval0,
            rs1: Register::ArgumentRetval1,
            imm: 0x123
        })
    );
}

#[test]
fn and() {
    assert_eq!(
        decode(0x002372b3),
        Ok(Instruction::And {
            rd: Register::Temp0,
            rs1: Register::Temp1,
            rs2: Register::StackPointer
        })
    );
}

#[test]
fn andi() {
    assert_eq!(
        decode(0xfff1f493),
        Ok(Instruction::Andi { rd: Register::Saved1, rs1: Register::GlobalPointer, imm: -1 })
    );
}

#[test]
fn auipc() {
    assert_eq!(
        decode(0x12345517),
        Ok(Instruction::Auipc { rd: Register::ArgumentRetval0, imm: 0x12345 })
    );
}

#[test]
fn beq() {
    assert_eq!(
        decode(0xd4b50663),
        Ok(Instruction::Beq {
            rs1: Register::ArgumentRetval0,
            rs2: Register::ArgumentRetval1,
            imm: -2740
        })
    );
}

#[test]
fn bge() {
    assert_eq!(
        decode(0xd4b55663),
        Ok(Instruction::Bge {
            rs1: Register::ArgumentRetval0,
            rs2: Register::ArgumentRetval1,
            imm: -2740
        })
    );
}

#[test]
fn bgeu() {
    assert_eq!(
        decode(0xd4b57663),
        Ok(Instruction::Bgeu {
            rs1: Register::ArgumentRetval0,
            rs2: Register::ArgumentRetval1,
            imm: -2740
        })
    );
}

#[test]
fn blt() {
    assert_eq!(
        decode(0xd4b54663),
        Ok(Instruction::Blt {
            rs1: Register::ArgumentRetval0,
            rs2: Register::ArgumentRetval1,
            imm: -2740
        })
    );
}

#[test]
fn bltu() {
    assert_eq!(
        decode(0xd4b56663),
        Ok(Instruction::Bltu {
            rs1: Register::ArgumentRetval0,
            rs2: Register::ArgumentRetval1,
            imm: -2740
        })
    );
}

#[test]
fn bne() {
    assert_eq!(
        decode(0xd4b51663),
        Ok(Instruction::Bne {
            rs1: Register::ArgumentRetval0,
            rs2: Register::ArgumentRetval1,
            imm: -2740
        })
    );
}

#[test]
fn fencei() {
    assert_eq!(decode(0xFFF0100f), Ok(Instruction::FenceI));
    assert_eq!(decode(0x0000100f), Ok(Instruction::FenceI));
}

#[test]
fn store() {
    assert_eq!(
        decode(0xAA62BAA3),
        Ok(Instruction::Sd { rs1: Register::Temp0, rs2: Register::Temp1, imm: -1355 })
    );
    assert_eq!(
        decode(0xAA62AAA3),
        Ok(Instruction::Sw { rs1: Register::Temp0, rs2: Register::Temp1, imm: -1355 })
    );
    assert_eq!(
        decode(0xAA629AA3),
        Ok(Instruction::Sh { rs1: Register::Temp0, rs2: Register::Temp1, imm: -1355 })
    );
    assert_eq!(
        decode(0xAA628AA3),
        Ok(Instruction::Sb { rs1: Register::Temp0, rs2: Register::Temp1, imm: -1355 })
    );
}

#[test]
fn loads() {
    let rd = Register::ArgumentRetval0;
    let rs1 = Register::Saved0;
    assert_eq!(decode(0x01040503), Ok(Instruction::Lb { rd, rs1, imm: 16 }));
    assert_eq!(decode(0x01041503), Ok(Instruction::Lh { rd, rs1, imm: 16 }));
    assert_eq!(decode(0x01042503), Ok(Instruction::Lw { rd, rs1, imm: 16 }));
    assert_eq!(decode(0x01043503), Ok(Instruction::Ld { rd, rs1, imm: 16 }));
    assert_eq!(decode(0x01044503), Ok(Instruction::Lbu { rd, rs1, imm: 16 }));
    assert_eq!(decode(0x01045503), Ok(Instruction::Lhu { rd, rs1, imm: 16 }));
    assert_eq!(decode(0x01046503), Ok(Instruction::Lwu { rd, rs1, imm: 16 }));
}

#[test]
fn load_negative_offset() {
    // The I-format offset sign-extends: field 0xFFF is -1
    assert_eq!(
        decode(0xFFF42503),
        Ok(Instruction::Lw { rd: Register::ArgumentRetval0, rs1: Register::Saved0, imm: -1 })
    );
}

#[test]
fn op_imm_comparisons_and_logic() {
    let rd = Register::ArgumentRetval0;
    let rs1 = Register::ArgumentRetval1;
    assert_eq!(decode(0x1235A513), Ok(Instruction::Slti { rd, rs1, imm: 0x123 }));
    assert_eq!(decode(0x1235B513), Ok(Instruction::Sltiu { rd, rs1, imm: 0x123 }));
    assert_eq!(decode(0x1235C513), Ok(Instruction::Xori { rd, rs1, imm: 0x123 }));
    assert_eq!(decode(0x1235E513), Ok(Instruction::Ori { rd, rs1, imm: 0x123 }));
}

#[test]
fn op_imm_shifts() {
    let rd = Register::ArgumentRetval0;
    let rs1 = Register::ArgumentRetval1;
    assert_eq!(decode(0x00559513), Ok(Instruction::Slli { rd, rs1, shamt: 5 }));
    assert_eq!(decode(0x0055D513), Ok(Instruction::Srli { rd, rs1, shamt: 5 }));
    assert_eq!(decode(0x4055D513), Ok(Instruction::Srai { rd, rs1, shamt: 5 }));
    // A 6-bit shift amount is legal on RV64
    assert_eq!(decode(0x02559513), Ok(Instruction::Slli { rd, rs1, shamt: 37 }));
    // Any other value in the high immediate bits of a right shift is invalid
    assert_eq!(
        decode(0x2055D513),
        Err(DecodeError::Invalid { field: Field::Imm, value: 0x205 })
    );
}

#[test]
fn op_imm_32() {
    let rd = Register::ArgumentRetval0;
    let rs1 = Register::ArgumentRetval1;
    assert_eq!(decode(0x1235851B), Ok(Instruction::Addiw { rd, rs1, imm: 0x123 }));
    assert_eq!(decode(0x0055951B), Ok(Instruction::Slliw { rd, rs1, shamt: 5 }));
    assert_eq!(decode(0x0055D51B), Ok(Instruction::Srliw { rd, rs1, shamt: 5 }));
    assert_eq!(decode(0x4055D51B), Ok(Instruction::Sraiw { rd, rs1, shamt: 5 }));
    // Bit 5 of a narrow shift amount is reserved
    assert_eq!(
        decode(0x0255951B),
        Err(DecodeError::Invalid { field: Field::Shamt, value: 37 })
    );
    // SLTI has no narrow counterpart
    assert_eq!(
        decode(0x1235A51B),
        Err(DecodeError::Invalid { field: Field::Funct3, value: 2 })
    );
}

#[test]
fn op_base() {
    let rd = Register::Temp0;
    let rs1 = Register::Temp1;
    let rs2 = Register::StackPointer;
    assert_eq!(decode(0x002312B3), Ok(Instruction::Sll { rd, rs1, rs2 }));
    assert_eq!(decode(0x002322B3), Ok(Instruction::Slt { rd, rs1, rs2 }));
    assert_eq!(decode(0x002332B3), Ok(Instruction::Sltu { rd, rs1, rs2 }));
    assert_eq!(decode(0x002342B3), Ok(Instruction::Xor { rd, rs1, rs2 }));
    assert_eq!(decode(0x002352B3), Ok(Instruction::Srl { rd, rs1, rs2 }));
    assert_eq!(decode(0x002362B3), Ok(Instruction::Or { rd, rs1, rs2 }));
    assert_eq!(decode(0x402302B3), Ok(Instruction::Sub { rd, rs1, rs2 }));
    assert_eq!(decode(0x402352B3), Ok(Instruction::Sra { rd, rs1, rs2 }));
}

#[test]
fn op_muldiv() {
    let rd = Register::Temp0;
    let rs1 = Register::Temp1;
    let rs2 = Register::StackPointer;
    assert_eq!(decode(0x022302B3), Ok(Instruction::Mul { rd, rs1, rs2 }));
    assert_eq!(decode(0x022312B3), Ok(Instruction::Mulh { rd, rs1, rs2 }));
    assert_eq!(decode(0x022322B3), Ok(Instruction::Mulhsu { rd, rs1, rs2 }));
    assert_eq!(decode(0x022332B3), Ok(Instruction::Mulhu { rd, rs1, rs2 }));
    assert_eq!(decode(0x022342B3), Ok(Instruction::Div { rd, rs1, rs2 }));
    assert_eq!(decode(0x022352B3), Ok(Instruction::Divu { rd, rs1, rs2 }));
    assert_eq!(decode(0x022362B3), Ok(Instruction::Rem { rd, rs1, rs2 }));
    assert_eq!(decode(0x022372B3), Ok(Instruction::Remu { rd, rs1, rs2 }));
}

#[test]
fn op_invalid() {
    // funct7 0100000 pairs only with funct3 000 and 101
    assert_eq!(
        decode(0x402312B3),
        Err(DecodeError::Invalid { field: Field::Funct3, value: 1 })
    );
    // any other funct7 is unknown
    assert_eq!(
        decode(0x060302B3),
        Err(DecodeError::Invalid { field: Field::Funct7, value: 3 })
    );
}

#[test]
fn op_32() {
    let rd = Register::Temp0;
    let rs1 = Register::Temp1;
    let rs2 = Register::StackPointer;
    assert_eq!(decode(0x002302BB), Ok(Instruction::Addw { rd, rs1, rs2 }));
    assert_eq!(decode(0x402302BB), Ok(Instruction::Subw { rd, rs1, rs2 }));
    assert_eq!(decode(0x002312BB), Ok(Instruction::Sllw { rd, rs1, rs2 }));
    assert_eq!(decode(0x002352BB), Ok(Instruction::Srlw { rd, rs1, rs2 }));
    assert_eq!(decode(0x402352BB), Ok(Instruction::Sraw { rd, rs1, rs2 }));
    assert_eq!(decode(0x022302BB), Ok(Instruction::Mulw { rd, rs1, rs2 }));
    assert_eq!(decode(0x022342BB), Ok(Instruction::Divw { rd, rs1, rs2 }));
    assert_eq!(decode(0x022352BB), Ok(Instruction::Divuw { rd, rs1, rs2 }));
    assert_eq!(decode(0x022362BB), Ok(Instruction::Remw { rd, rs1, rs2 }));
    assert_eq!(decode(0x022372BB), Ok(Instruction::Remuw { rd, rs1, rs2 }));
    // SLT has no narrow counterpart
    assert_eq!(
        decode(0x002322BB),
        Err(DecodeError::Invalid { field: Field::Funct3, value: 2 })
    );
}

#[test]
fn branch_invalid_funct3() {
    assert_eq!(
        decode(0xd4b52663),
        Err(DecodeError::Invalid { field: Field::Funct3, value: 2 })
    );
}

#[test]
fn jumps() {
    assert_eq!(decode(0x0000006F), Ok(Instruction::Jal { rd: Register::Zero, imm: 0 }));
    assert_eq!(
        decode(0xFFFFF0EF),
        Ok(Instruction::Jal { rd: Register::ReturnAddress, imm: -2 })
    );
    assert_eq!(
        decode(0x00008067),
        Ok(Instruction::Jalr { rd: Register::Zero, rs1: Register::ReturnAddress, imm: 0 })
    );
    assert_eq!(
        decode(0x00009067),
        Err(DecodeError::Invalid { field: Field::Funct3, value: 1 })
    );
}

#[test]
fn lui_keeps_bits_in_place() {
    assert_eq!(
        decode(0x123452B7),
        Ok(Instruction::Lui { rd: Register::Temp0, uimm: 0x12345000 })
    );
    // LUI is unsigned: the container is zero-extended, not sign-extended
    assert_eq!(
        decode(0xFFFFF2B7),
        Ok(Instruction::Lui { rd: Register::Temp0, uimm: 0xFFFFF000 })
    );
}

#[test]
fn auipc_negative() {
    assert_eq!(
        decode(0xFFFFF517),
        Ok(Instruction::Auipc { rd: Register::ArgumentRetval0, imm: -1 })
    );
}

#[test]
fn fence() {
    let all = FenceFlags { i: true, o: true, r: true, w: true };
    assert_eq!(decode(0x0FF0000F), Ok(Instruction::Fence { pred: all, succ: all }));
    let pred = FenceFlags { i: false, o: false, r: true, w: false };
    let succ = FenceFlags { i: false, o: false, r: false, w: true };
    assert_eq!(decode(0x0210000F), Ok(Instruction::Fence { pred, succ }));
}

#[test]
fn misc_mem_constraints() {
    // rd and rs1 must both be the zero register
    assert_eq!(
        decode(0x0000108F),
        Err(DecodeError::Invalid { field: Field::RdRs1, value: 1 })
    );
    assert_eq!(
        decode(0x0000200F),
        Err(DecodeError::Invalid { field: Field::Funct3, value: 2 })
    );
}

#[test]
fn amo() {
    let rd = Register::ArgumentRetval0;
    let rs1 = Register::Saved0;
    let rs2 = Register::Temp1;
    assert_eq!(
        decode(0x0064252F),
        Ok(Instruction::Amoaddw { rd, rs1, rs2, aq: false, rl: false })
    );
    assert_eq!(
        decode(0x0E64252F),
        Ok(Instruction::Amoswapw { rd, rs1, rs2, aq: true, rl: true })
    );
    assert_eq!(
        decode(0x1064252F),
        Err(DecodeError::Invalid { field: Field::Funct5, value: 2 })
    );
    assert_eq!(
        decode(0x0064352F),
        Err(DecodeError::Invalid { field: Field::Funct3, value: 3 })
    );
}

#[test]
fn system_no_operand_ops() {
    assert_eq!(decode(0x00000073), Ok(Instruction::Ecall));
    assert_eq!(decode(0x00100073), Ok(Instruction::Ebreak));
    assert_eq!(decode(0x00200073), Ok(Instruction::Uret));
    assert_eq!(decode(0x10200073), Ok(Instruction::Sret));
    assert_eq!(decode(0x10500073), Ok(Instruction::Wfi));
    assert_eq!(decode(0x30200073), Ok(Instruction::Mret));
    assert_eq!(decode(0x00300073), Err(DecodeError::Invalid { field: Field::Imm, value: 3 }));
    assert_eq!(
        decode(0x000000F3),
        Err(DecodeError::Invalid { field: Field::RdRs1, value: 1 })
    );
}

#[test]
fn system_csr_ops() {
    let rd = Register::ArgumentRetval0;
    let rs1 = Register::ArgumentRetval1;
    let csr = CsrRegister::MStatus;
    assert_eq!(decode(0x30059573), Ok(Instruction::Csrrw { rd, rs1, csr }));
    assert_eq!(decode(0x3005A573), Ok(Instruction::Csrrs { rd, rs1, csr }));
    assert_eq!(decode(0x3005B573), Ok(Instruction::Csrrc { rd, rs1, csr }));
    assert_eq!(decode(0x3002D573), Ok(Instruction::Csrrwi { rd, csr, imm: 5 }));
    assert_eq!(decode(0x3002E573), Ok(Instruction::Csrrsi { rd, csr, imm: 5 }));
    assert_eq!(decode(0x3002F573), Ok(Instruction::Csrrci { rd, csr, imm: 5 }));
    assert_eq!(
        decode(0x3005C573),
        Err(DecodeError::Invalid { field: Field::Funct3, value: 4 })
    );
}

#[test]
fn system_csr_addressing() {
    let rd = Register::ArgumentRetval0;
    let rs1 = Register::ArgumentRetval1;
    assert_eq!(
        decode(0x12359573),
        Ok(Instruction::Csrrw { rd, rs1, csr: CsrRegister::Other(0x123) })
    );
    assert_eq!(
        decode(0x3A559573),
        Ok(Instruction::Csrrw { rd, rs1, csr: CsrRegister::PMPCfg(5) })
    );
}

#[test]
fn unimplemented_classes() {
    assert_eq!(
        decode(0x00000007),
        Err(DecodeError::Unimplemented { class: OpClass::LoadFp })
    );
    assert_eq!(
        decode(0x00000053),
        Err(DecodeError::Unimplemented { class: OpClass::OpFp })
    );
    assert_eq!(
        decode(0x0000000B),
        Err(DecodeError::Unimplemented { class: OpClass::Custom0 })
    );
    assert_eq!(
        decode(0x00000057),
        Err(DecodeError::Unimplemented { class: OpClass::Reserved })
    );
}
