//! Addresses in the machine's physical memory.

use core::cmp::Ordering;
use vstd::prelude::*;
use vstd::std_specs::cmp::{PartialOrdIs, PartialOrdSpecImpl};
use vstd::std_specs::convert::FromSpecImpl;
use vstd::std_specs::ops::{AddSpecImpl, SubSpecImpl};
use crate::space::wrap;

verus! {

/// An address in physical memory. Any number is an address; two physical
/// addresses compare as their numbers do, and their sums and differences
/// wrap around the end of the address space.
#[derive(Copy, Clone, PartialEq, Eq, Structural, Ord, Hash)]
pub struct PhysAddr(pub u64);

impl View for PhysAddr {
    type V = int;

    open spec fn view(&self) -> int {
        self.0 as int
    }
}

impl Default for PhysAddr {
    fn default() -> (zero: PhysAddr)
        ensures
            zero@ == 0,
    {
        PhysAddr(0)
    }
}

impl core::ops::Add for PhysAddr {
    type Output = PhysAddr;

    fn add(self, rhs: PhysAddr) -> (sum: PhysAddr)
        ensures
            sum@ == wrap(self@ + rhs@),
    {
        PhysAddr(self.0.wrapping_add(rhs.0))
    }
}

impl AddSpecImpl for PhysAddr {
    open spec fn obeys_add_spec() -> bool {
        true
    }

    open spec fn add_req(self, rhs: PhysAddr) -> bool {
        true
    }

    open spec fn add_spec(self, rhs: PhysAddr) -> PhysAddr {
        PhysAddr(wrap(self@ + rhs@) as u64)
    }
}

impl core::ops::Sub for PhysAddr {
    type Output = PhysAddr;

    fn sub(self, rhs: PhysAddr) -> (difference: PhysAddr)
        ensures
            difference@ == wrap(self@ - rhs@),
    {
        PhysAddr(self.0.wrapping_sub(rhs.0))
    }
}

impl SubSpecImpl for PhysAddr {
    open spec fn obeys_sub_spec() -> bool {
        true
    }

    open spec fn sub_req(self, rhs: PhysAddr) -> bool {
        true
    }

    open spec fn sub_spec(self, rhs: PhysAddr) -> PhysAddr {
        PhysAddr(wrap(self@ - rhs@) as u64)
    }
}

impl core::ops::AddAssign for PhysAddr {
    fn add_assign(&mut self, rhs: PhysAddr)
        ensures
            final(self)@ == wrap(old(self)@ + rhs@),
    {
        self.0 = self.0.wrapping_add(rhs.0);
    }
}

impl core::ops::SubAssign for PhysAddr {
    fn sub_assign(&mut self, rhs: PhysAddr)
        ensures
            final(self)@ == wrap(old(self)@ - rhs@),
    {
        self.0 = self.0.wrapping_sub(rhs.0);
    }
}

impl From<PhysAddr> for u64 {
    fn from(addr: PhysAddr) -> (value: u64)
        ensures
            value == addr@,
    {
        addr.0
    }
}

impl FromSpecImpl<PhysAddr> for u64 {
    open spec fn obeys_from_spec() -> bool {
        true
    }

    open spec fn from_spec(addr: PhysAddr) -> u64 {
        addr.0
    }
}

impl PartialOrd for PhysAddr {
    fn partial_cmp(&self, other: &PhysAddr) -> (order: Option<Ordering>) {
        if self.0 < other.0 {
            Some(Ordering::Less)
        } else if self.0 == other.0 {
            Some(Ordering::Equal)
        } else {
            Some(Ordering::Greater)
        }
    }
}

impl PartialOrdSpecImpl for PhysAddr {
    open spec fn obeys_partial_cmp_spec() -> bool {
        true
    }

    open spec fn partial_cmp_spec(&self, other: &PhysAddr) -> Option<Ordering> {
        if self@ < other@ {
            Some(Ordering::Less)
        } else if self@ == other@ {
            Some(Ordering::Equal)
        } else {
            Some(Ordering::Greater)
        }
    }
}

/// Physical addresses are ordered as their numbers are: one is below another
/// exactly when its number is smaller, and equal exactly when the numbers are.
pub proof fn lemma_phys_order_is_numeric(a: PhysAddr, b: PhysAddr)
    ensures
        a.is_lt(&b) <==> a@ < b@,
        a.is_le(&b) <==> a@ <= b@,
        a.is_gt(&b) <==> a@ > b@,
        a.is_ge(&b) <==> a@ >= b@,
        a == b <==> a@ == b@,
{
}

} // verus!
