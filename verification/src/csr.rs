//! The control/status register address space: named registers for trap
//! setup, trap handling, memory protection and machine info, the two 16-entry
//! PMP banks, and the `Other`/`Invalid` catch-alls, with the address lookup
//! in both directions and the per-register writability and write-mask rules.

use vstd::prelude::*;

verus! {

/// A control/status register, named where the decoder knows the address,
/// `Other` for any other address that fits the 12-bit CSR field, and
/// `Invalid` for addresses that do not.
#[derive(Debug, Copy, Clone, PartialEq, Eq, Structural)]
pub enum CsrRegister {
    SScratch,
    SepC,
    SStatus,
    MStatus,
    MISA,
    MEDeleg,
    MIDeleg,
    MIE,
    MTVec,
    MCounterEn,
    SIE,
    MPIE,
    SPIE,
    MScratch,
    MEPC,
    MCause,
    MTVal,
    MIP,
    MTInst,
    MTVal2,
    PMPCfg(u8),
    PMPAddr(u8),
    MVendorID,
    MArchID,
    MImpID,
    MHartID,
    Other(u16),
    Invalid(u64),
}

/// The register that a CSR address names: an exact match for the named
/// registers, a range match for the two PMP banks, `Other` below 4096 and
/// `Invalid` from 4096 up.
pub open spec fn spec_from_address(num: u64) -> CsrRegister {
    if num == 0x140 {
        CsrRegister::SScratch
    } else if num == 0x141 {
        CsrRegister::SepC
    } else if num == 0x100 {
        CsrRegister::SStatus
    } else if num == 0x300 {
        CsrRegister::MStatus
    } else if num == 0x301 {
        CsrRegister::MISA
    } else if num == 0x302 {
        CsrRegister::MEDeleg
    } else if num == 0x303 {
        CsrRegister::MIDeleg
    } else if num == 0x304 {
        CsrRegister::MIE
    } else if num == 0x305 {
        CsrRegister::MTVec
    } else if num == 0x306 {
        CsrRegister::MCounterEn
    } else if num == 0x340 {
        CsrRegister::MScratch
    } else if num == 0x341 {
        CsrRegister::MEPC
    } else if num == 0x342 {
        CsrRegister::MCause
    } else if num == 0x343 {
        CsrRegister::MTVal
    } else if num == 0x344 {
        CsrRegister::MIP
    } else if num == 0x34A {
        CsrRegister::MTInst
    } else if num == 0x34B {
        CsrRegister::MTVal2
    } else if num == 0xF11 {
        CsrRegister::MVendorID
    } else if num == 0xF12 {
        CsrRegister::MArchID
    } else if num == 0xF13 {
        CsrRegister::MImpID
    } else if num == 0xF14 {
        CsrRegister::MHartID
    } else if 0x3A0 <= num <= 0x3AF {
        CsrRegister::PMPCfg((num - 0x3A0) as u8)
    } else if 0x3B0 <= num <= 0x3EF {
        CsrRegister::PMPAddr((num - 0x3B0) as u8)
    } else if num < 4096 {
        CsrRegister::Other(num as u16)
    } else {
        CsrRegister::Invalid(num)
    }
}

/// The address of a register. The three aliases `SIE`, `MPIE` and `SPIE`
/// name no address of their own and map to the out-of-range sentinel, as
/// does `Invalid`; `spec_from_address` never produces them from a 12-bit
/// field, so the round trip over valid addresses is unaffected.
pub open spec fn spec_to_address(csr: CsrRegister) -> int {
    match csr {
        CsrRegister::SScratch => 0x140,
        CsrRegister::SepC => 0x141,
        CsrRegister::SStatus => 0x100,
        CsrRegister::MStatus => 0x300,
        CsrRegister::MISA => 0x301,
        CsrRegister::MEDeleg => 0x302,
        CsrRegister::MIDeleg => 0x303,
        CsrRegister::MIE => 0x304,
        CsrRegister::MTVec => 0x305,
        CsrRegister::MCounterEn => 0x306,
        CsrRegister::SIE => usize::MAX as int,
        CsrRegister::MPIE => usize::MAX as int,
        CsrRegister::SPIE => usize::MAX as int,
        CsrRegister::MScratch => 0x340,
        CsrRegister::MEPC => 0x341,
        CsrRegister::MCause => 0x342,
        CsrRegister::MTVal => 0x343,
        CsrRegister::MIP => 0x344,
        CsrRegister::MTInst => 0x34A,
        CsrRegister::MTVal2 => 0x34B,
        CsrRegister::PMPCfg(num) => num + 0x3A0,
        CsrRegister::PMPAddr(num) => num + 0x3B0,
        CsrRegister::MVendorID => 0xF11,
        CsrRegister::MArchID => 0xF12,
        CsrRegister::MImpID => 0xF13,
        CsrRegister::MHartID => 0xF14,
        CsrRegister::Other(n) => n as int,
        CsrRegister::Invalid(_) => usize::MAX as int,
    }
}

/// True unless the register is one of the four read-only machine-info
/// registers or `Invalid`.
pub open spec fn spec_is_writable(csr: CsrRegister) -> bool {
    match csr {
        CsrRegister::MVendorID => false,
        CsrRegister::MArchID => false,
        CsrRegister::MImpID => false,
        CsrRegister::MHartID => false,
        CsrRegister::Invalid(_) => false,
        _ => true,
    }
}

/// The set of bits a write affects: all ones for every addressable
/// register, zero for `Invalid`. Per-register masks within a word are a
/// documented simplification of this table.
pub open spec fn spec_mask(csr: CsrRegister) -> u64 {
    match csr {
        CsrRegister::Invalid(_) => 0,
        _ => 0xFFFF_FFFF_FFFF_FFFF,
    }
}

/// Every address that fits the 12-bit CSR field round-trips: looking the
/// address up and reading the register's address back returns it, and in
/// the PMP banks the address is rebuilt as the bank base plus the entry
/// index.
pub proof fn lemma_csr_round_trip(addr: u64)
    requires
        addr < 4096,
    ensures
        spec_to_address(spec_from_address(addr)) == addr,
        0x3A0 <= addr <= 0x3AF ==> spec_from_address(addr) == CsrRegister::PMPCfg(
            (addr - 0x3A0) as u8,
        ),
        0x3B0 <= addr <= 0x3EF ==> spec_from_address(addr) == CsrRegister::PMPAddr(
            (addr - 0x3B0) as u8,
        ),
{
}

/// An address too wide for the 12-bit CSR field is classified `Invalid`,
/// which is read-only and has an empty write mask.
pub proof fn lemma_csr_invalid(addr: u64)
    requires
        addr >= 4096,
    ensures
        spec_from_address(addr) == CsrRegister::Invalid(addr),
        !spec_is_writable(spec_from_address(addr)),
        spec_mask(spec_from_address(addr)) == 0,
{
}

impl CsrRegister {
    /// The register that `num` addresses; total over all of `u64`.
    pub fn from_address(num: u64) -> (csr: CsrRegister)
        ensures
            csr == spec_from_address(num),
    {
        if num == 0x140 {
            CsrRegister::SScratch
        } else if num == 0x141 {
            CsrRegister::SepC
        } else if num == 0x100 {
            CsrRegister::SStatus
        } else if num == 0x300 {
            CsrRegister::MStatus
        } else if num == 0x301 {
            CsrRegister::MISA
        } else if num == 0x302 {
            CsrRegister::MEDeleg
        } else if num == 0x303 {
            CsrRegister::MIDeleg
        } else if num == 0x304 {
            CsrRegister::MIE
        } else if num == 0x305 {
            CsrRegister::MTVec
        } else if num == 0x306 {
            CsrRegister::MCounterEn
        } else if num == 0x340 {
            CsrRegister::MScratch
        } else if num == 0x341 {
            CsrRegister::MEPC
        } else if num == 0x342 {
            CsrRegister::MCause
        } else if num == 0x343 {
            CsrRegister::MTVal
        } else if num == 0x344 {
            CsrRegister::MIP
        } else if num == 0x34A {
            CsrRegister::MTInst
        } else if num == 0x34B {
            CsrRegister::MTVal2
        } else if num == 0xF11 {
            CsrRegister::MVendorID
        } else if num == 0xF12 {
            CsrRegister::MArchID
        } else if num == 0xF13 {
            CsrRegister::MImpID
        } else if num == 0xF14 {
            CsrRegister::MHartID
        } else if 0x3A0 <= num && num <= 0x3AF {
            CsrRegister::PMPCfg((num - 0x3A0) as u8)
        } else if 0x3B0 <= num && num <= 0x3EF {
            CsrRegister::PMPAddr((num - 0x3B0) as u8)
        } else if num < 4096 {
            CsrRegister::Other(num as u16)
        } else {
            CsrRegister::Invalid(num)
        }
    }

    /// The address of this register; the inverse of `from_address` on every
    /// register that a 12-bit field can produce.
    pub fn to_address(self) -> (addr: usize)
        ensures
            addr == spec_to_address(self),
    {
        match self {
            CsrRegister::SScratch => 0x140,
            CsrRegister::SepC => 0x141,
            CsrRegister::SStatus => 0x100,
            CsrRegister::MStatus => 0x300,
            CsrRegister::MISA => 0x301,
            CsrRegister::MEDeleg => 0x302,
            CsrRegister::MIDeleg => 0x303,
            CsrRegister::MIE => 0x304,
            CsrRegister::MTVec => 0x305,
            CsrRegister::MCounterEn => 0x306,
            CsrRegister::SIE => usize::MAX,
            CsrRegister::MPIE => usize::MAX,
            CsrRegister::SPIE => usize::MAX,
            CsrRegister::MScratch => 0x340,
            CsrRegister::MEPC => 0x341,
            CsrRegister::MCause => 0x342,
            CsrRegister::MTVal => 0x343,
            CsrRegister::MIP => 0x344,
            CsrRegister::MTInst => 0x34A,
            CsrRegister::MTVal2 => 0x34B,
            CsrRegister::PMPCfg(num) => num as usize + 0x3A0,
            CsrRegister::PMPAddr(num) => num as usize + 0x3B0,
            CsrRegister::MVendorID => 0xF11,
            CsrRegister::MArchID => 0xF12,
            CsrRegister::MImpID => 0xF13,
            CsrRegister::MHartID => 0xF14,
            CsrRegister::Other(n) => n as usize,
            CsrRegister::Invalid(_) => usize::MAX,
        }
    }

    /// Returns a mask of the register bits a write affects.
    pub fn mask(&self) -> (m: u64)
        ensures
            m == spec_mask(*self),
    {
        match self {
            CsrRegister::Invalid(_) => 0,
            _ => 0xFFFF_FFFF_FFFF_FFFF,
        }
    }

    /// Returns true if the register is writable.
    pub fn is_writable(&self) -> (w: bool)
        ensures
            w == spec_is_writable(*self),
    {
        match self {
            CsrRegister::MVendorID
            | CsrRegister::MArchID
            | CsrRegister::MImpID
            | CsrRegister::MHartID => false,
            CsrRegister::Invalid(_) => false,
            _ => true,
        }
    }
}

} // verus!
