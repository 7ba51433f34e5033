//! Pages of physical memory.

use vstd::prelude::*;
use crate::phys_addr::PhysAddr;

verus! {

/// Number of bytes in a page.
pub const PAGE_SIZE: usize = 4096;

impl PhysAddr {
    /// Whether the address is the first of a page: a multiple of the page
    /// size.
    pub open spec fn spec_is_page_aligned(&self) -> bool {
        self@ % (PAGE_SIZE as int) == 0
    }

    /// Whether the address is the first of a page.
    #[verifier::when_used_as_spec(spec_is_page_aligned)]
    pub fn is_page_aligned(&self) -> (aligned: bool)
        ensures
            aligned == self.spec_is_page_aligned(),
    {
        self.0 % (PAGE_SIZE as u64) == 0
    }

    /// Clears the page that starts at this address. `page` is that page's
    /// memory: the caller says where the address leads.
    ///
    /// An address inside a page is refused, and then no byte is written.
    pub fn clear_page(&self, page: &mut [u8; PAGE_SIZE]) -> (cleared: Result<(), ()>)
        ensures
            cleared is Ok <==> self.is_page_aligned(),
            cleared is Ok ==> forall|i: int| 0 <= i < PAGE_SIZE ==> final(page)@[i] == 0,
            cleared is Err ==> *final(page) == *old(page),
    {
        if !self.is_page_aligned() {
            return Err(());
        }
        let mut at: usize = 0;
        while at < PAGE_SIZE
            invariant
                at <= PAGE_SIZE,
                forall|i: int| 0 <= i < at ==> page@[i] == 0,
            decreases PAGE_SIZE - at,
        {
            page[at] = 0;
            at += 1;
        }
        Ok(())
    }
}

} // verus!
