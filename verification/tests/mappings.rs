use riscv_decode::decode;
use riscv_decode::opcode_size;
use riscv_decode::CsrRegister;
use riscv_decode::DecodeError;
use riscv_decode::Field;
use riscv_decode::Instruction;
use riscv_decode::OpType;
use riscv_decode::Opcodes;
use riscv_decode::Register;

#[test]
fn width_selection() {
    // Low bits 11 mean a 32-bit word; every other pattern is compressed
    assert_eq!(opcode_size(0b00), 2);
    assert_eq!(opcode_size(0b01), 2);
    assert_eq!(opcode_size(0b10), 2);
    assert_eq!(opcode_size(0b11), 4);
    assert_eq!(opcode_size(0x00050433), 4);
    assert_eq!(opcode_size(0x9002), 2);
}

#[test]
fn decode_is_pure() {
    let first = decode(0x00050433);
    let unrelated = decode(0x9002);
    let second = decode(0x00050433);
    assert_eq!(first, second);
    assert_eq!(unrelated, decode(0x9002));
}

#[test]
fn register_index_round_trip() {
    for idx in 0..32usize {
        let r = Register::from_index(idx);
        assert_eq!(r.to_index(), idx);
    }
    assert_eq!(Register::from_index(0), Register::Zero);
    assert_eq!(Register::from_index(2), Register::StackPointer);
    assert_eq!(Register::from_index(10), Register::ArgumentRetval0);
    assert_eq!(Register::from_index(31), Register::Temp6);
}

#[test]
fn register_from_rvc_offsets_into_the_popular_eight() {
    assert_eq!(Register::from_rvc(0), Register::Saved0);
    assert_eq!(Register::from_rvc(1), Register::Saved1);
    assert_eq!(Register::from_rvc(2), Register::ArgumentRetval0);
    assert_eq!(Register::from_rvc(7), Register::Argument5);
}

#[test]
fn csr_named_round_trip() {
    let named: [usize; 21] = [
        0x100, 0x140, 0x141, 0x300, 0x301, 0x302, 0x303, 0x304, 0x305, 0x306, 0x340, 0x341,
        0x342, 0x343, 0x344, 0x34A, 0x34B, 0xF11, 0xF12, 0xF13, 0xF14,
    ];
    for addr in named {
        assert_eq!(CsrRegister::from_address(addr as u64).to_address(), addr);
    }
}

#[test]
fn csr_pmp_banks() {
    for i in 0..16u64 {
        assert_eq!(CsrRegister::from_address(0x3A0 + i), CsrRegister::PMPCfg(i as u8));
        assert_eq!(CsrRegister::from_address(0x3A0 + i).to_address(), 0x3A0 + i as usize);
    }
    for i in 0..64u64 {
        assert_eq!(CsrRegister::from_address(0x3B0 + i), CsrRegister::PMPAddr(i as u8));
        assert_eq!(CsrRegister::from_address(0x3B0 + i).to_address(), 0x3B0 + i as usize);
    }
}

#[test]
fn csr_other_round_trip() {
    assert_eq!(CsrRegister::from_address(0x7C0), CsrRegister::Other(0x7C0));
    assert_eq!(CsrRegister::from_address(0x7C0).to_address(), 0x7C0);
    assert_eq!(CsrRegister::from_address(0), CsrRegister::Other(0));
}

#[test]
fn csr_invalid_is_read_only() {
    assert_eq!(CsrRegister::from_address(4096), CsrRegister::Invalid(4096));
    assert_eq!(CsrRegister::from_address(u64::MAX), CsrRegister::Invalid(u64::MAX));
    assert!(!CsrRegister::from_address(4096).is_writable());
    assert_eq!(CsrRegister::from_address(4096).mask(), 0);
}

#[test]
fn csr_writability_and_mask() {
    assert!(!CsrRegister::MVendorID.is_writable());
    assert!(!CsrRegister::MArchID.is_writable());
    assert!(!CsrRegister::MImpID.is_writable());
    assert!(!CsrRegister::MHartID.is_writable());
    assert!(CsrRegister::MStatus.is_writable());
    assert!(CsrRegister::Other(0x7C0).is_writable());
    assert_eq!(CsrRegister::MStatus.mask(), u64::MAX);
    assert_eq!(CsrRegister::Other(0x7C0).mask(), u64::MAX);
}

#[test]
fn opcodes_round_trip() {
    assert_eq!(Opcodes::from_byte(0x37), Opcodes::Lui);
    assert_eq!(Opcodes::from_byte(0x13), Opcodes::Unknown(0x13));
    assert_eq!(Opcodes::Lui.to_byte(), 0x37);
    assert_eq!(Opcodes::from_byte(0x13).to_byte(), 0x13);
}

#[test]
fn format_extraction_r() {
    assert_eq!(
        OpType::new_r(0x00050433),
        OpType::R {
            rd: Register::Saved0,
            rs1: Register::ArgumentRetval0,
            rs2: Register::Zero,
            funct3: 0,
            funct7: 0
        }
    );
}

#[test]
fn format_extraction_i_sign_pair() {
    // Sign bit clear: the raw field is the value
    assert_eq!(
        OpType::new_i(0x7FF42503),
        OpType::I {
            rd: Register::ArgumentRetval0,
            rs1: Register::Saved0,
            funct3: 2,
            imm: 0x7FF
        }
    );
    // Sign bit set: the field reads as a negative two's-complement value
    assert_eq!(
        OpType::new_i(0x80042503),
        OpType::I {
            rd: Register::ArgumentRetval0,
            rs1: Register::Saved0,
            funct3: 2,
            imm: -2048
        }
    );
}

#[test]
fn format_extraction_s_b_sign_pairs() {
    assert_eq!(
        OpType::new_s(0xAA628AA3),
        OpType::S { rs1: Register::Temp0, rs2: Register::Temp1, funct3: 0, imm: -1355 }
    );
    assert_eq!(
        OpType::new_s(0x00628AA3),
        OpType::S { rs1: Register::Temp0, rs2: Register::Temp1, funct3: 0, imm: 21 }
    );
    assert_eq!(
        OpType::new_b(0xd4b50663),
        OpType::B {
            rs1: Register::ArgumentRetval0,
            rs2: Register::ArgumentRetval1,
            funct3: 0,
            imm: -2740
        }
    );
    assert_eq!(
        OpType::new_b(0x00B50663),
        OpType::B {
            rs1: Register::ArgumentRetval0,
            rs2: Register::ArgumentRetval1,
            funct3: 0,
            imm: 12
        }
    );
}

#[test]
fn format_extraction_u_j() {
    assert_eq!(
        OpType::new_u(0x12345517),
        OpType::U { rd: Register::ArgumentRetval0, imm: 0x12345, uimm: 0x12345000 }
    );
    assert_eq!(
        OpType::new_u(0xFFFFF517),
        OpType::U { rd: Register::ArgumentRetval0, imm: -1, uimm: 0xFFFFF000 }
    );
    assert_eq!(
        OpType::new_j(0xFFFFF0EF),
        OpType::J { rd: Register::ReturnAddress, imm: -2 }
    );
    assert_eq!(OpType::new_j(0x0100006F), OpType::J { rd: Register::Zero, imm: 16 });
    assert_eq!(
        OpType::new_jal(0xFFFFF0EF),
        OpType::Jal { rd: Register::ReturnAddress, imm: -2 }
    );
    assert_eq!(
        OpType::new_auipc(0xFFFFF517),
        OpType::Auipc { rd: Register::ArgumentRetval0, imm: -1 }
    );
    assert_eq!(
        OpType::new_lui(0xFFFFF2B7),
        OpType::Lui { rd: Register::Temp0, imm: 0xFFFFF000 }
    );
}

#[test]
fn format_extraction_load_jalr_csr() {
    assert_eq!(
        OpType::new_load(0xFFF42503),
        OpType::Load {
            rd: Register::ArgumentRetval0,
            rs1: Register::Saved0,
            funct3: 2,
            imm: -1
        }
    );
    assert_eq!(
        OpType::new_jalr(0x00008067),
        OpType::Jalr {
            rd: Register::Zero,
            rs1: Register::ReturnAddress,
            funct3: 0,
            imm: 0
        }
    );
    assert_eq!(
        OpType::new_csr(0x30059573),
        OpType::Csr {
            rd: Register::ArgumentRetval0,
            rs1: Register::ArgumentRetval1,
            funct3: 1,
            csr: CsrRegister::MStatus
        }
    );
}

#[test]
fn opcode_type_coarse_dispatch() {
    assert_eq!(
        Instruction::opcode_type(0x00050433),
        Ok(OpType::R {
            rd: Register::Saved0,
            rs1: Register::ArgumentRetval0,
            rs2: Register::Zero,
            funct3: 0,
            funct7: 0
        })
    );
    assert_eq!(
        Instruction::opcode_type(0x00000001),
        Err(DecodeError::Invalid { field: Field::Opcode, value: 1 })
    );
}
