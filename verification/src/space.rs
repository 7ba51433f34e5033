//! The arithmetic that both kinds of address share: they live in a 64-bit
//! space, and sums and differences wrap around its end.

use vstd::prelude::*;

verus! {

/// Number of distinct addresses.
pub open spec fn address_space() -> int {
    0x1_0000_0000_0000_0000
}

/// The address that an integer denotes: its residue in the address space.
pub open spec fn wrap(n: int) -> int {
    n % address_space()
}

/// Wrapping a sum may be done one summand at a time.
pub proof fn lemma_wrap_add(a: int, b: int)
    ensures
        wrap(wrap(a) + b) == wrap(a + b),
        wrap(a + wrap(b)) == wrap(a + b),
{
    vstd::arithmetic::div_mod::lemma_add_mod_noop(a, b, address_space());
    vstd::arithmetic::div_mod::lemma_add_mod_noop(wrap(a), b, address_space());
    vstd::arithmetic::div_mod::lemma_add_mod_noop(a, wrap(b), address_space());
    vstd::arithmetic::div_mod::lemma_mod_twice(a, address_space());
    vstd::arithmetic::div_mod::lemma_mod_twice(b, address_space());
}

} // verus!
