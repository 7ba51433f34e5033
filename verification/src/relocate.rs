//! Relocation: during early boot the emulator moves from the bottom of the
//! virtual address space to its upper half, and every value that holds a
//! position in the emulator's own address space is shifted by the same
//! fixed base, once.

use vstd::prelude::*;
use crate::space::{address_space, lemma_wrap_add, wrap};
use crate::virt_addr::VirtAddr;

verus! {

/// Where the emulator resides after relocation. Before relocation it
/// resides at zero, so the base is also the distance that a value moves.
pub const EMULATOR_BASE: u64 = 0xffff_8000_0000_0000;

/// The position that `position` moves to: one base further, around the end
/// of the address space if need be.
pub open spec fn relocated(position: int) -> int {
    wrap(position + EMULATOR_BASE)
}

/// A value that holds a position in the emulator's own address space and
/// has to follow the emulator when it moves.
///
/// Relocation does not remember that it was applied: a second call shifts
/// the value once more. The boot sequence visits each value exactly once.
pub trait Relocatable {
    /// The position that the value holds.
    spec fn position(&self) -> u64;

    /// Moves the position one base up.
    fn relocate(&mut self)
        ensures
            final(self).position() == relocated(old(self).position() as int),
    ;
}

impl Relocatable for VirtAddr {
    open spec fn position(&self) -> u64 {
        self.0
    }

    fn relocate(&mut self)
        ensures
            final(self)@ == wrap(old(self)@ + EMULATOR_BASE),
    {
        core::ops::AddAssign::add_assign(self, VirtAddr(EMULATOR_BASE));
    }
}

/// Relocating a position once moves it by the base, and relocating it again
/// moves it by twice the base, each time around the end of the address space.
/// The second relocation never gives back what the first one gave.
pub proof fn lemma_relocate_twice(position: int)
    ensures
        relocated(position) == wrap(position + EMULATOR_BASE),
        relocated(relocated(position)) == wrap(position + 2 * EMULATOR_BASE),
        relocated(relocated(position)) != relocated(position),
{
    lemma_wrap_add(position + EMULATOR_BASE, EMULATOR_BASE as int);
}

/// Relocating a virtual address once yields the address one base further,
/// and relocating it twice the address two bases further, modulo the size of
/// the address space. Where the address lies below the distance from the
/// base to the end of the address space, the first relocation does not wrap,
/// and the result lies at or above the base.
pub proof fn lemma_relocate_virt_addr(v: VirtAddr)
    ensures
        v.position() == v@,
        relocated(v@) == wrap(v@ + EMULATOR_BASE),
        relocated(relocated(v@)) == wrap(v@ + 2 * EMULATOR_BASE),
        relocated(relocated(v@)) != relocated(v@),
        v@ + EMULATOR_BASE < address_space() ==> relocated(v@) == v@ + EMULATOR_BASE,
        v@ + EMULATOR_BASE < address_space() ==> relocated(v@) >= EMULATOR_BASE,
{
    lemma_relocate_twice(v@);
}

} // verus!
