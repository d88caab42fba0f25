//! Bit-level views of a 32-bit instruction word: the register, funct and
//! immediate fields of the standard formats, and the laws that pin each
//! signed immediate to the two's-complement reading of its field bits.

use vstd::prelude::*;

use crate::register::spec_from_index;
use crate::register::Register;

verus! {

/// Masking keeps a value at or below the mask.
pub broadcast proof fn lemma_u32_and_mask_bound(x: u32, m: u32)
    ensures
        #[trigger] (x & m) <= m,
{
    assert(x & m <= m) by (bit_vector);
}

/// Masking keeps a value at or below the mask.
pub broadcast proof fn lemma_u16_and_mask_bound(x: u16, m: u16)
    ensures
        #[trigger] (x & m) <= m,
{
    assert(x & m <= m) by (bit_vector);
}

/// The destination register field, word bits 11:7.
pub open spec fn reg_rd(w: u32) -> Register {
    spec_from_index(((w >> 7) & 0x1F) as int)
}

/// The first source register field, word bits 19:15.
pub open spec fn reg_rs1(w: u32) -> Register {
    spec_from_index(((w >> 15) & 0x1F) as int)
}

/// The second source register field, word bits 24:20.
pub open spec fn reg_rs2(w: u32) -> Register {
    spec_from_index(((w >> 20) & 0x1F) as int)
}

/// The funct3 discriminator, word bits 14:12.
pub open spec fn funct3_of(w: u32) -> u8 {
    ((w >> 12) & 0b111) as u8
}

/// The funct7 discriminator, word bits 31:25.
pub open spec fn funct7_of(w: u32) -> u8 {
    ((w >> 25) & 0x7F) as u8
}

/// The 12-bit CSR address field, word bits 31:20, never sign-extended.
pub open spec fn csr_field_of(w: u32) -> u32 {
    (w >> 20) & 0xFFF
}

/// The raw 12-bit I-format immediate field, word bits 31:20.
pub open spec fn field_i(w: u32) -> u32 {
    (w >> 20) & 0xFFF
}

/// The I-format immediate: the field read as a 12-bit two's-complement
/// value, extended to 64 bits.
pub open spec fn imm_i_of(w: u32) -> i64 {
    if (w >> 31) & 1 == 1 {
        (field_i(w) - 4096) as i64
    } else {
        field_i(w) as i64
    }
}

/// The raw 12-bit S-format immediate, assembled from word bits 11:7 (low
/// five bits) and 31:25 (high seven bits).
pub open spec fn field_s(w: u32) -> u32 {
    ((w >> 7) & 0x1F) | (((w >> 25) & 0x7F) << 5)
}

/// The S-format immediate: the assembled field read as a 12-bit
/// two's-complement value.
pub open spec fn imm_s_of(w: u32) -> i64 {
    if (w >> 31) & 1 == 1 {
        (field_s(w) - 4096) as i64
    } else {
        field_s(w) as i64
    }
}

/// The raw 13-bit B-format immediate, assembled from word bits 11:8 (bits
/// 4:1), 30:25 (bits 10:5), 7 (bit 11) and 31 (bit 12); bit 0 is always 0.
pub open spec fn field_b(w: u32) -> u32 {
    (((w >> 8) & 0xF) << 1) | (((w >> 25) & 0x3F) << 5) | (((w >> 7) & 1) << 11) | (((w >> 31)
        & 1) << 12)
}

/// The B-format branch offset: the assembled field read as a 13-bit
/// two's-complement value, always even.
pub open spec fn imm_b_of(w: u32) -> i64 {
    if (w >> 31) & 1 == 1 {
        (field_b(w) - 8192) as i64
    } else {
        field_b(w) as i64
    }
}

/// The raw 21-bit J-format immediate, assembled from word bits 30:21 (bits
/// 10:1), 20 (bit 11), 19:12 (bits 19:12) and 31 (bit 20); bit 0 is always 0.
pub open spec fn field_j(w: u32) -> u32 {
    (((w >> 21) & 0x3FF) << 1) | (((w >> 20) & 1) << 11) | (((w >> 12) & 0xFF) << 12) | (((w
        >> 31) & 1) << 20)
}

/// The J-format jump offset: the assembled field read as a 21-bit
/// two's-complement value, always even.
pub open spec fn imm_j_of(w: u32) -> i64 {
    if (w >> 31) & 1 == 1 {
        (field_j(w) - 0x20_0000) as i64
    } else {
        field_j(w) as i64
    }
}

/// The raw 20-bit U-format immediate field, word bits 31:12.
pub open spec fn field_u(w: u32) -> u32 {
    (w >> 12) & 0xFFFFF
}

/// The U-format immediate as AUIPC reads it: the field as a 20-bit
/// two's-complement value.
pub open spec fn imm_u_of(w: u32) -> i64 {
    if (w >> 31) & 1 == 1 {
        (field_u(w) - 0x10_0000) as i64
    } else {
        field_u(w) as i64
    }
}

/// The U-format immediate as LUI keeps it: the field left in place in bits
/// 31:12, zero-extended.
pub open spec fn uimm_u_of(w: u32) -> u64 {
    (w & 0xFFFF_F000) as u64
}

/// A value in [0, m) and the same value less m are each other's unique
/// representatives modulo m.
pub(crate) proof fn lemma_two_complement_mod(f: int, m: int)
    requires
        0 < m,
        0 <= f < m,
    ensures
        f % m == f,
        (f - m) % m == f,
{
    vstd::arithmetic::div_mod::lemma_small_mod(f as nat, m as nat);
    vstd::arithmetic::div_mod::lemma_mod_multiples_vanish(-1, f, m);
}

/// Sign extension of the I-format immediate is algebraically correct: the
/// decoded value lies in [-2048, 2048), is congruent to the raw 12-bit field
/// modulo 4096, and is negative exactly when the word's sign bit is set.
pub proof fn lemma_imm_i_sign(w: u32)
    ensures
        -2048 <= imm_i_of(w) < 2048,
        imm_i_of(w) as int % 4096 == field_i(w),
        imm_i_of(w) < 0 <==> (w >> 31) & 1 == 1,
{
    assert(field_i(w) < 4096 && ((w >> 31) & 1 == 1 <==> (w >> 20) & 0xFFF >= 2048))
        by (bit_vector);
    lemma_two_complement_mod(field_i(w) as int, 4096);
}

/// Sign extension of the S-format immediate is algebraically correct: the
/// decoded value lies in [-2048, 2048), is congruent to the assembled 12-bit
/// field modulo 4096, and is negative exactly when the word's sign bit is
/// set.
pub proof fn lemma_imm_s_sign(w: u32)
    ensures
        -2048 <= imm_s_of(w) < 2048,
        imm_s_of(w) as int % 4096 == field_s(w),
        imm_s_of(w) < 0 <==> (w >> 31) & 1 == 1,
{
    assert(((w >> 7) & 0x1F) | (((w >> 25) & 0x7F) << 5) < 4096 && ((w >> 31) & 1 == 1 <==> ((w
        >> 7) & 0x1F) | (((w >> 25) & 0x7F) << 5) >= 2048)) by (bit_vector);
    lemma_two_complement_mod(field_s(w) as int, 4096);
}

/// Sign extension of the B-format offset is algebraically correct: the
/// decoded value is even, lies in [-4096, 4096), is congruent to the
/// assembled 13-bit field modulo 8192, and is negative exactly when the
/// word's sign bit is set.
pub proof fn lemma_imm_b_sign(w: u32)
    ensures
        -4096 <= imm_b_of(w) < 4096,
        imm_b_of(w) % 2 == 0,
        imm_b_of(w) as int % 8192 == field_b(w),
        imm_b_of(w) < 0 <==> (w >> 31) & 1 == 1,
{
    assert({
        let f = (((w >> 8) & 0xF) << 1) | (((w >> 25) & 0x3F) << 5) | (((w >> 7) & 1) << 11) | ((
        (w >> 31) & 1) << 12);
        f < 8192 && f % 2 == 0 && ((w >> 31) & 1 == 1 <==> f >= 4096)
    }) by (bit_vector);
    lemma_two_complement_mod(field_b(w) as int, 8192);
}

/// Sign extension of the J-format offset is algebraically correct: the
/// decoded value is even, lies in [-2^20, 2^20), is congruent to the
/// assembled 21-bit field modulo 2^21, and is negative exactly when the
/// word's sign bit is set.
pub proof fn lemma_imm_j_sign(w: u32)
    ensures
        -0x10_0000 <= imm_j_of(w) < 0x10_0000,
        imm_j_of(w) % 2 == 0,
        imm_j_of(w) as int % 0x20_0000 == field_j(w),
        imm_j_of(w) < 0 <==> (w >> 31) & 1 == 1,
{
    assert({
        let f = (((w >> 21) & 0x3FF) << 1) | (((w >> 20) & 1) << 11) | (((w >> 12) & 0xFF) << 12)
            | (((w >> 31) & 1) << 20);
        f < 0x20_0000 && f % 2 == 0 && ((w >> 31) & 1 == 1 <==> f >= 0x10_0000)
    }) by (bit_vector);
    lemma_two_complement_mod(field_j(w) as int, 0x20_0000);
}

/// Sign extension of the U-format immediate as AUIPC reads it is
/// algebraically correct: the decoded value lies in [-2^19, 2^19), is
/// congruent to the raw 20-bit field modulo 2^20, and is negative exactly
/// when the word's sign bit is set.
pub proof fn lemma_imm_u_sign(w: u32)
    ensures
        -0x8_0000 <= imm_u_of(w) < 0x8_0000,
        imm_u_of(w) as int % 0x10_0000 == field_u(w),
        imm_u_of(w) < 0 <==> (w >> 31) & 1 == 1,
{
    assert((w >> 12) & 0xFFFFF < 0x10_0000 && ((w >> 31) & 1 == 1 <==> (w >> 12) & 0xFFFFF
        >= 0x8_0000)) by (bit_vector);
    lemma_two_complement_mod(field_u(w) as int, 0x10_0000);
}

} // verus!
