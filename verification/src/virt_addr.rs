//! Addresses in the current virtual address space.

use core::cmp::Ordering;
use vstd::prelude::*;
use vstd::std_specs::cmp::{PartialOrdIs, PartialOrdSpecImpl};
use vstd::std_specs::convert::FromSpecImpl;
use vstd::std_specs::ops::{AddSpecImpl, SubSpecImpl};
use crate::space::wrap;

verus! {

/// An address in the virtual address space. Any number is an address; two
/// virtual addresses compare as their numbers do, and their sums and
/// differences wrap around the end of the address space.
#[derive(Copy, Clone, PartialEq, Eq, Structural, Ord, Hash)]
pub struct VirtAddr(pub u64);

impl View for VirtAddr {
    type V = int;

    open spec fn view(&self) -> int {
        self.0 as int
    }
}

impl Default for VirtAddr {
    fn default() -> (zero: VirtAddr)
        ensures
            zero@ == 0,
    {
        VirtAddr(0)
    }
}

impl core::ops::Add for VirtAddr {
    type Output = VirtAddr;

    fn add(self, rhs: VirtAddr) -> (sum: VirtAddr)
        ensures
            sum@ == wrap(self@ + rhs@),
    {
        VirtAddr(self.0.wrapping_add(rhs.0))
    }
}

impl AddSpecImpl for VirtAddr {
    open spec fn obeys_add_spec() -> bool {
        true
    }

    open spec fn add_req(self, rhs: VirtAddr) -> bool {
        true
    }

    open spec fn add_spec(self, rhs: VirtAddr) -> VirtAddr {
        VirtAddr(wrap(self@ + rhs@) as u64)
    }
}

impl core::ops::Sub for VirtAddr {
    type Output = VirtAddr;

    fn sub(self, rhs: VirtAddr) -> (difference: VirtAddr)
        ensures
            difference@ == wrap(self@ - rhs@),
    {
        VirtAddr(self.0.wrapping_sub(rhs.0))
    }
}

impl SubSpecImpl for VirtAddr {
    open spec fn obeys_sub_spec() -> bool {
        true
    }

    open spec fn sub_req(self, rhs: VirtAddr) -> bool {
        true
    }

    open spec fn sub_spec(self, rhs: VirtAddr) -> VirtAddr {
        VirtAddr(wrap(self@ - rhs@) as u64)
    }
}

impl core::ops::AddAssign for VirtAddr {
    fn add_assign(&mut self, rhs: VirtAddr)
        ensures
            final(self)@ == wrap(old(self)@ + rhs@),
    {
        self.0 = self.0.wrapping_add(rhs.0);
    }
}

impl core::ops::SubAssign for VirtAddr {
    fn sub_assign(&mut self, rhs: VirtAddr)
        ensures
            final(self)@ == wrap(old(self)@ - rhs@),
    {
        self.0 = self.0.wrapping_sub(rhs.0);
    }
}

impl From<VirtAddr> for u64 {
    fn from(addr: VirtAddr) -> (value: u64)
        ensures
            value == addr@,
    {
        addr.0
    }
}

impl FromSpecImpl<VirtAddr> for u64 {
    open spec fn obeys_from_spec() -> bool {
        true
    }

    open spec fn from_spec(addr: VirtAddr) -> u64 {
        addr.0
    }
}

impl PartialOrd for VirtAddr {
    fn partial_cmp(&self, other: &VirtAddr) -> (order: Option<Ordering>) {
        if self.0 < other.0 {
            Some(Ordering::Less)
        } else if self.0 == other.0 {
            Some(Ordering::Equal)
        } else {
            Some(Ordering::Greater)
        }
    }
}

impl PartialOrdSpecImpl for VirtAddr {
    open spec fn obeys_partial_cmp_spec() -> bool {
        true
    }

    open spec fn partial_cmp_spec(&self, other: &VirtAddr) -> Option<Ordering> {
        if self@ < other@ {
            Some(Ordering::Less)
        } else if self@ == other@ {
            Some(Ordering::Equal)
        } else {
            Some(Ordering::Greater)
        }
    }
}

/// Virtual addresses are ordered as their numbers are: one is below another
/// exactly when its number is smaller, and equal exactly when the numbers are.
pub proof fn lemma_virt_order_is_numeric(a: VirtAddr, b: VirtAddr)
    ensures
        a.is_lt(&b) <==> a@ < b@,
        a.is_le(&b) <==> a@ <= b@,
        a.is_gt(&b) <==> a@ > b@,
        a.is_ge(&b) <==> a@ >= b@,
        a == b <==> a@ == b@,
{
}

} // verus!
