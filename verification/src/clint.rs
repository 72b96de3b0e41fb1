//! Register map of the core-local interruptor (CLINT) found on the QEMU
//! `virt` machine.
//!
//! The CLINT holds, from its base address: one 32-bit software interrupt
//! register (`msip`) per hart, then at offset `0x4000` one 64-bit timer
//! compare register (`mtimecmp`) per hart, and at offset `0xbff8` the 64-bit
//! machine time (`mtime`). The library computes where each register lies;
//! the platform performs the volatile accesses.
use vstd::prelude::*;

verus! {

/// Offset of the first `mtimecmp` register.
pub const CLINT_MTIMECMP_OFFSET: usize = 0x4000;

/// Offset of `mtime`.
pub const CLINT_MTIME_OFFSET: usize = 0xbff8;

/// Bytes in one `msip` register.
pub const CLINT_MSIP_BYTES: usize = 4;

/// Bytes in one `mtimecmp` register.
pub const CLINT_MTIMECMP_BYTES: usize = 8;

/// What `setup` writes into a hart's `mtimecmp`: an instant far enough away
/// to mean no timer, and small enough not to make QEMU loop.
pub const MTIMECMP_NO_TIMER: u64 = 0x0fff_ffff_ffff_ffff;

/// A CLINT at a base address.
pub struct Clint {
    base: usize,
}

/// Address of `mtime` for a CLINT at `base`.
pub open spec fn spec_mtime_address(base: usize) -> int {
    base + CLINT_MTIME_OFFSET
}

/// Address of hart `hart_id`'s `mtimecmp` for a CLINT at `base`.
pub open spec fn spec_mtimecmp_address(base: usize, hart_id: usize) -> int {
    base + CLINT_MTIMECMP_OFFSET + CLINT_MTIMECMP_BYTES * hart_id
}

/// Address of hart `hart_id`'s `msip` for a CLINT at `base`.
pub open spec fn spec_msip_address(base: usize, hart_id: usize) -> int {
    base + CLINT_MSIP_BYTES * hart_id
}

/// `Some(addr)` where `addr` is a machine address, `None` where it lies
/// beyond the address space.
pub open spec fn address_in_range(addr: int) -> Option<usize> {
    if addr <= usize::MAX {
        Some(addr as usize)
    } else {
        None
    }
}

impl Clint {
    /// The base address.
    pub closed spec fn base_addr(&self) -> usize {
        self.base
    }

    /// A CLINT whose registers start at `base`.
    pub fn new(base: usize) -> (clint: Clint)
        ensures
            clint.base_addr() == base,
    {
        Clint { base }
    }

    /// Address of `mtime`; `None` where it lies beyond the address space.
    pub fn mtime_address(&self) -> (addr: Option<usize>)
        ensures
            addr == address_in_range(spec_mtime_address(self.base_addr())),
    {
        self.base.checked_add(CLINT_MTIME_OFFSET)
    }

    /// Address of hart `hart_id`'s `mtimecmp`; `None` where it lies beyond
    /// the address space.
    pub fn mtimecmp_address(&self, hart_id: usize) -> (addr: Option<usize>)
        ensures
            addr == address_in_range(spec_mtimecmp_address(self.base_addr(), hart_id)),
    {
        match hart_id.checked_mul(CLINT_MTIMECMP_BYTES) {
            Some(offset) => match self.base.checked_add(CLINT_MTIMECMP_OFFSET) {
                Some(first) => first.checked_add(offset),
                None => None,
            },
            None => None,
        }
    }

    /// Address of hart `hart_id`'s `msip`; `None` where it lies beyond the
    /// address space.
    pub fn msip_address(&self, hart_id: usize) -> (addr: Option<usize>)
        ensures
            addr == address_in_range(spec_msip_address(self.base_addr(), hart_id)),
    {
        match hart_id.checked_mul(CLINT_MSIP_BYTES) {
            Some(offset) => self.base.checked_add(offset),
            None => None,
        }
    }
}

/// The registers of distinct harts do not overlap, and for up to 4095 harts
/// the three kinds of register lie in disjoint areas: every `msip` below
/// the first `mtimecmp`, every `mtimecmp` below `mtime`.
pub proof fn clint_registers_disjoint(base: usize, i: usize, j: usize)
    requires
        i < 4095,
        j < 4095,
    ensures
        i != j ==> spec_msip_address(base, i) + CLINT_MSIP_BYTES <= spec_msip_address(base, j)
            || spec_msip_address(base, j) + CLINT_MSIP_BYTES <= spec_msip_address(base, i),
        i != j ==> spec_mtimecmp_address(base, i) + CLINT_MTIMECMP_BYTES <= spec_mtimecmp_address(
            base,
            j,
        ) || spec_mtimecmp_address(base, j) + CLINT_MTIMECMP_BYTES <= spec_mtimecmp_address(
            base,
            i,
        ),
        spec_msip_address(base, i) + CLINT_MSIP_BYTES <= spec_mtimecmp_address(base, j),
        spec_mtimecmp_address(base, i) + CLINT_MTIMECMP_BYTES <= spec_mtime_address(base),
{
}

/// The registers of consecutive harts are consecutive: hart 0's `msip`
/// is at the base and each next hart's 4 bytes further; hart 0's
/// `mtimecmp` is at offset 0x4000 and each next hart's 8 bytes further;
/// `mtime` is at offset 0xbff8.
pub proof fn clint_registers_are_consecutive(base: usize, hart_id: usize, next_hart: usize)
    requires
        next_hart == hart_id + 1,
    ensures
        spec_msip_address(base, 0) == base,
        spec_msip_address(base, next_hart) == spec_msip_address(base, hart_id) + 4,
        spec_mtimecmp_address(base, 0) == base + 0x4000,
        spec_mtimecmp_address(base, next_hart) == spec_mtimecmp_address(base, hart_id) + 8,
        spec_mtime_address(base) == base + 0xbff8,
{
}

} // verus!
