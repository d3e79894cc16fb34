//! The closed permission set used by registers and bitfields.

use vstd::prelude::*;

verus! {

/// A permission descriptor. Where a grammar position makes it optional, its
/// absence means "unconstrained" and suppresses the keyword entirely.
#[derive(Debug, PartialEq, Clone, Copy)]
pub enum Access {
    ReadOnly,
    WriteOnly,
    ReadWrite,
}

impl Access {
    /// The keyword an access descriptor renders as.
    pub open spec fn spec_render(self) -> Seq<char> {
        match self {
            Access::ReadOnly => "ReadOnly"@,
            Access::WriteOnly => "WriteOnly"@,
            Access::ReadWrite => "ReadWrite"@,
        }
    }

    /// Appends the access keyword to `out`.
    pub fn write(&self, out: &mut String)
        ensures
            final(out)@ == old(out)@ + self.spec_render(),
    {
        match self {
            Access::ReadOnly => out.append("ReadOnly"),
            Access::WriteOnly => out.append("WriteOnly"),
            Access::ReadWrite => out.append("ReadWrite"),
        }
    }
}

} // verus!
