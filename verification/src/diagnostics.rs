//! Addresses as diagnostics show them. Each kind carries its own letter in
//! front, so that a physical address is never taken for a virtual one.

use vstd::arithmetic::power::pow;
use vstd::prelude::*;
use vstd::string::StringExecFns;
use crate::digits::{digits_value, hex, lemma_hex_denotes, push_hex};
use crate::phys_addr::PhysAddr;
use crate::virt_addr::VirtAddr;

verus! {

/// Number of hexadecimal digits in an address.
pub const ADDRESS_DIGITS: usize = 16;

impl PhysAddr {
    /// The address as it is shown: the letter `p`, then `0x` and all sixteen
    /// hexadecimal digits of the number, leading zeros included.
    pub open spec fn rendering(self) -> Seq<char> {
        "p0x"@ + hex(self@ as nat, ADDRESS_DIGITS as nat)
    }

    /// Renders the address for diagnostics.
    pub fn debug_string(&self) -> (text: String)
        ensures
            text@ == self.rendering(),
    {
        let mut text = String::from_str("p0x");
        push_hex(self.0, ADDRESS_DIGITS, &mut text);
        text
    }
}

impl VirtAddr {
    /// The address as it is shown: the letter `v`, then `0x` and all sixteen
    /// hexadecimal digits of the number, leading zeros included.
    pub open spec fn rendering(self) -> Seq<char> {
        "v0x"@ + hex(self@ as nat, ADDRESS_DIGITS as nat)
    }

    /// Renders the address for diagnostics.
    pub fn debug_string(&self) -> (text: String)
        ensures
            text@ == self.rendering(),
    {
        let mut text = String::from_str("v0x");
        push_hex(self.0, ADDRESS_DIGITS, &mut text);
        text
    }
}

/// Sixteen hexadecimal digits are exactly enough for an address.
proof fn lemma_digits_span_addresses()
    ensures
        pow(16, ADDRESS_DIGITS as nat) == crate::space::address_space(),
{
    reveal_with_fuel(pow, 17);
}

/// A physical address is shown in nineteen characters: `p`, `0`, `x`, and
/// sixteen digits that denote the address.
pub proof fn lemma_phys_rendering(a: PhysAddr)
    ensures
        a.rendering().len() == 19,
        a.rendering()[0] == 'p',
        a.rendering()[1] == '0',
        a.rendering()[2] == 'x',
        digits_value(a.rendering().subrange(3, 19), 16) == a@,
{
    reveal_strlit("p0x");
    lemma_hex_denotes(a@ as nat, ADDRESS_DIGITS as nat);
    lemma_digits_span_addresses();
    assert(a.rendering().subrange(3, 19) =~= hex(a@ as nat, ADDRESS_DIGITS as nat));
    vstd::arithmetic::div_mod::lemma_small_mod(a@ as nat, pow(16, ADDRESS_DIGITS as nat) as nat);
}

/// A virtual address is shown in nineteen characters: `v`, `0`, `x`, and
/// sixteen digits that denote the address.
pub proof fn lemma_virt_rendering(a: VirtAddr)
    ensures
        a.rendering().len() == 19,
        a.rendering()[0] == 'v',
        a.rendering()[1] == '0',
        a.rendering()[2] == 'x',
        digits_value(a.rendering().subrange(3, 19), 16) == a@,
{
    reveal_strlit("v0x");
    lemma_hex_denotes(a@ as nat, ADDRESS_DIGITS as nat);
    lemma_digits_span_addresses();
    assert(a.rendering().subrange(3, 19) =~= hex(a@ as nat, ADDRESS_DIGITS as nat));
    vstd::arithmetic::div_mod::lemma_small_mod(a@ as nat, pow(16, ADDRESS_DIGITS as nat) as nat);
}

/// No physical address is shown as any virtual address is, and two
/// addresses of one kind are shown alike only where they are the same.
pub proof fn lemma_renderings_tell_apart(p: PhysAddr, q: PhysAddr, v: VirtAddr, w: VirtAddr)
    ensures
        p.rendering() != v.rendering(),
        p.rendering() == q.rendering() <==> p == q,
        v.rendering() == w.rendering() <==> v == w,
{
    lemma_phys_rendering(p);
    lemma_phys_rendering(q);
    lemma_virt_rendering(v);
    lemma_virt_rendering(w);
}

} // verus!
