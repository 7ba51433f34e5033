//! Byte counts for people to read.

use vstd::prelude::*;
use vstd::string::StringExecFns;
use crate::digits::{decimal, push_decimal};

verus! {

/// Bytes in a KiB.
pub const KIB: usize = 1024;

/// Bytes in a MiB.
pub const MIB: usize = 1024 * 1024;

/// A number of bytes, kept to be shown. Nothing is computed with it.
#[derive(Copy, Clone, Debug, PartialEq, Eq, Structural, PartialOrd, Ord, Hash)]
pub struct ByteSize(pub usize);

impl View for ByteSize {
    type V = nat;

    open spec fn view(&self) -> nat {
        self.0 as nat
    }
}

impl Default for ByteSize {
    fn default() -> (zero: ByteSize)
        ensures
            zero@ == 0,
    {
        ByteSize(0)
    }
}

impl ByteSize {
    /// The size as it is shown: in the largest of bytes, KiB and MiB of
    /// which it holds at least one, as a whole number of them, rounded down.
    pub open spec fn rendering(self) -> Seq<char> {
        if self@ >= MIB {
            decimal(self@ / (MIB as nat)) + " MiB"@
        } else if self@ >= KIB {
            decimal(self@ / (KIB as nat)) + " KiB"@
        } else {
            decimal(self@) + " bytes"@
        }
    }

    /// Renders the size for display.
    pub fn to_string(&self) -> (text: String)
        ensures
            text@ == self.rendering(),
    {
        let mut text = String::new();
        if self.0 >= MIB {
            push_decimal(self.0 / MIB, &mut text);
            text.append(" MiB");
        } else if self.0 >= KIB {
            push_decimal(self.0 / KIB, &mut text);
            text.append(" KiB");
        } else {
            push_decimal(self.0, &mut text);
            text.append(" bytes");
        }
        assert(text@ =~= self.rendering());
        text
    }
}

} // verus!
