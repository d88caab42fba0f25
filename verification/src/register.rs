//! The 32 integer registers, named by their ABI roles, with the total
//! bijection between registers and the 5-bit indices that instruction words
//! carry, and the secondary 3-bit "popular eight" mapping used by the
//! compressed encoding.

use vstd::prelude::*;

verus! {

/// One of the 32 integer registers, under its ABI role name.
#[derive(Debug, Copy, Clone, PartialEq, Eq, Structural)]
pub enum Register {
    Zero,
    ReturnAddress,
    StackPointer,
    GlobalPointer,
    ThreadPointer,
    Temp0,
    Temp1,
    Temp2,
    Saved0,
    Saved1,
    ArgumentRetval0,
    ArgumentRetval1,
    Argument2,
    Argument3,
    Argument4,
    Argument5,
    Argument6,
    Argument7,
    Saved2,
    Saved3,
    Saved4,
    Saved5,
    Saved6,
    Saved7,
    Saved8,
    Saved9,
    Saved10,
    Saved11,
    Temp3,
    Temp4,
    Temp5,
    Temp6,
}

/// The register that a 5-bit index selects. Defined on all of `int` so that
/// contracts stay total; indices 32 and above map to `Zero`, but every
/// executable entry point masks or checks its index first.
pub open spec fn spec_from_index(idx: int) -> Register {
    if idx == 0 {
        Register::Zero
    } else if idx == 1 {
        Register::ReturnAddress
    } else if idx == 2 {
        Register::StackPointer
    } else if idx == 3 {
        Register::GlobalPointer
    } else if idx == 4 {
        Register::ThreadPointer
    } else if idx == 5 {
        Register::Temp0
    } else if idx == 6 {
        Register::Temp1
    } else if idx == 7 {
        Register::Temp2
    } else if idx == 8 {
        Register::Saved0
    } else if idx == 9 {
        Register::Saved1
    } else if idx == 10 {
        Register::ArgumentRetval0
    } else if idx == 11 {
        Register::ArgumentRetval1
    } else if idx == 12 {
        Register::Argument2
    } else if idx == 13 {
        Register::Argument3
    } else if idx == 14 {
        Register::Argument4
    } else if idx == 15 {
        Register::Argument5
    } else if idx == 16 {
        Register::Argument6
    } else if idx == 17 {
        Register::Argument7
    } else if idx == 18 {
        Register::Saved2
    } else if idx == 19 {
        Register::Saved3
    } else if idx == 20 {
        Register::Saved4
    } else if idx == 21 {
        Register::Saved5
    } else if idx == 22 {
        Register::Saved6
    } else if idx == 23 {
        Register::Saved7
    } else if idx == 24 {
        Register::Saved8
    } else if idx == 25 {
        Register::Saved9
    } else if idx == 26 {
        Register::Saved10
    } else if idx == 27 {
        Register::Saved11
    } else if idx == 28 {
        Register::Temp3
    } else if idx == 29 {
        Register::Temp4
    } else if idx == 30 {
        Register::Temp5
    } else if idx == 31 {
        Register::Temp6
    } else {
        Register::Zero
    }
}

/// The 5-bit index that selects this register.
pub open spec fn spec_to_index(r: Register) -> int {
    match r {
        Register::Zero => 0,
        Register::ReturnAddress => 1,
        Register::StackPointer => 2,
        Register::GlobalPointer => 3,
        Register::ThreadPointer => 4,
        Register::Temp0 => 5,
        Register::Temp1 => 6,
        Register::Temp2 => 7,
        Register::Saved0 => 8,
        Register::Saved1 => 9,
        Register::ArgumentRetval0 => 10,
        Register::ArgumentRetval1 => 11,
        Register::Argument2 => 12,
        Register::Argument3 => 13,
        Register::Argument4 => 14,
        Register::Argument5 => 15,
        Register::Argument6 => 16,
        Register::Argument7 => 17,
        Register::Saved2 => 18,
        Register::Saved3 => 19,
        Register::Saved4 => 20,
        Register::Saved5 => 21,
        Register::Saved6 => 22,
        Register::Saved7 => 23,
        Register::Saved8 => 24,
        Register::Saved9 => 25,
        Register::Saved10 => 26,
        Register::Saved11 => 27,
        Register::Temp3 => 28,
        Register::Temp4 => 29,
        Register::Temp5 => 30,
        Register::Temp6 => 31,
    }
}

/// The register-index mapping is a bijection on [0, 31]: going from an index
/// to its register and back returns the index.
pub proof fn lemma_register_index_round_trip(idx: int)
    requires
        0 <= idx < 32,
    ensures
        spec_to_index(spec_from_index(idx)) == idx,
{
}

/// The register-index mapping is a bijection on [0, 31]: going from a
/// register to its index and back returns the register.
pub proof fn lemma_register_round_trip(r: Register)
    ensures
        0 <= spec_to_index(r) < 32,
        spec_from_index(spec_to_index(r)) == r,
{
}

impl Register {
    /// The register that a 5-bit instruction field selects. Fields are
    /// masked to five bits before this is called, so larger indices are a
    /// caller error and are excluded by contract.
    pub fn from_index(idx: usize) -> (r: Register)
        requires
            idx < 32,
        ensures
            r == spec_from_index(idx as int),
    {
        match idx {
            0 => Register::Zero,
            1 => Register::ReturnAddress,
            2 => Register::StackPointer,
            3 => Register::GlobalPointer,
            4 => Register::ThreadPointer,
            5 => Register::Temp0,
            6 => Register::Temp1,
            7 => Register::Temp2,
            8 => Register::Saved0,
            9 => Register::Saved1,
            10 => Register::ArgumentRetval0,
            11 => Register::ArgumentRetval1,
            12 => Register::Argument2,
            13 => Register::Argument3,
            14 => Register::Argument4,
            15 => Register::Argument5,
            16 => Register::Argument6,
            17 => Register::Argument7,
            18 => Register::Saved2,
            19 => Register::Saved3,
            20 => Register::Saved4,
            21 => Register::Saved5,
            22 => Register::Saved6,
            23 => Register::Saved7,
            24 => Register::Saved8,
            25 => Register::Saved9,
            26 => Register::Saved10,
            27 => Register::Saved11,
            28 => Register::Temp3,
            29 => Register::Temp4,
            30 => Register::Temp5,
            31 => Register::Temp6,
            _ => vstd::pervasive::unreached(),
        }
    }

    /// The 5-bit index of this register; the inverse of `from_index`.
    pub fn to_index(self) -> (idx: usize)
        ensures
            idx == spec_to_index(self),
            idx < 32,
    {
        match self {
            Register::Zero => 0,
            Register::ReturnAddress => 1,
            Register::StackPointer => 2,
            Register::GlobalPointer => 3,
            Register::ThreadPointer => 4,
            Register::Temp0 => 5,
            Register::Temp1 => 6,
            Register::Temp2 => 7,
            Register::Saved0 => 8,
            Register::Saved1 => 9,
            Register::ArgumentRetval0 => 10,
            Register::ArgumentRetval1 => 11,
            Register::Argument2 => 12,
            Register::Argument3 => 13,
            Register::Argument4 => 14,
            Register::Argument5 => 15,
            Register::Argument6 => 16,
            Register::Argument7 => 17,
            Register::Saved2 => 18,
            Register::Saved3 => 19,
            Register::Saved4 => 20,
            Register::Saved5 => 21,
            Register::Saved6 => 22,
            Register::Saved7 => 23,
            Register::Saved8 => 24,
            Register::Saved9 => 25,
            Register::Saved10 => 26,
            Register::Saved11 => 27,
            Register::Temp3 => 28,
            Register::Temp4 => 29,
            Register::Temp5 => 30,
            Register::Temp6 => 31,
        }
    }

    /// The register that a 3-bit compressed field selects: one of the eight
    /// "popular" registers, at index `num + 8`. Compressed fields are three
    /// bits wide, so larger values are a caller error.
    pub fn from_rvc(num: u8) -> (r: Register)
        requires
            num <= 0b111,
        ensures
            r == spec_from_index(num as int + 8),
    {
        Register::from_index(num as usize + 8)
    }
}

} // verus!
