//! The peripheral layer: named collections of register slots and their
//! placement at absolute addresses.

use vstd::prelude::*;

use crate::ident::Ident;
use crate::ident::Path;
use crate::register::RegisterSlot;
use crate::text::append_doc_comment;
use crate::text::append_hex;
use crate::text::append_indent;
use crate::text::spec_doc_comment;
use crate::text::spec_hex;
use crate::text::spec_indent;

verus! {

/// A named peripheral type: an ordered collection of register slots.
#[derive(Debug, PartialEq, Clone)]
pub struct PeripheralDefinition {
    pub ident: Ident,
    pub description: Option<String>,
    pub registers: Vec<RegisterSlot>,
}

/// A named placement of a peripheral type at an absolute address.
#[derive(Debug, PartialEq, Clone)]
pub struct PeripheralInstance {
    pub ident: Ident,
    pub path: Path,
    pub address: u64,
}

/// The characters a peripheral's register slots render as: each one level
/// deep on a comma-terminated line of its own, in declaration order.
pub open spec fn spec_render_slots(slots: Seq<RegisterSlot>, indent_level: nat) -> Seq<char>
    decreases slots.len(),
{
    if slots.len() == 0 {
        Seq::empty()
    } else {
        spec_render_slots(slots.drop_last(), indent_level) + spec_indent(indent_level)
            + slots.last().spec_render() + ",\n"@
    }
}

impl PeripheralDefinition {
    /// The characters a peripheral definition renders as at the given indent
    /// level: an optional doc-comment line, then `peripheral <ident>` and the
    /// register slots in braces.
    pub open spec fn spec_render(self, indent_level: nat) -> Seq<char> {
        spec_doc_comment(self.description, indent_level) + spec_indent(indent_level)
            + "peripheral "@ + self.ident.spec_render() + " {\n"@ + spec_render_slots(
            self.registers@,
            indent_level + 1,
        ) + spec_indent(indent_level) + "}"@
    }

    /// Appends the definition's rendering to `out` at the given indent level.
    pub fn write_indented(&self, out: &mut String, indent_level: u32)
        requires
            indent_level < u32::MAX,
        ensures
            final(out)@ == old(out)@ + self.spec_render(indent_level as nat),
    {
        append_doc_comment(out, &self.description, indent_level);
        append_indent(out, indent_level);
        out.append("peripheral ");
        self.ident.write(out);
        out.append(" {\n");
        let ghost pre: Seq<char> = out@;
        proof {
            assert(out@ =~= pre + spec_render_slots(self.registers@.take(0),
                indent_level as nat + 1));
        }
        let mut i: usize = 0;
        while i < self.registers.len()
            invariant
                i <= self.registers@.len(),
                indent_level < u32::MAX,
                out@ == pre + spec_render_slots(self.registers@.take(i as int),
                    indent_level as nat + 1),
            decreases self.registers@.len() - i,
        {
            append_indent(out, indent_level + 1);
            self.registers[i].write(out);
            out.append(",\n");
            i = i + 1;
            proof {
                let taken = self.registers@.take(i as int);
                assert(taken.last() == self.registers@[i - 1]);
                assert(taken.drop_last() =~= self.registers@.take(i - 1));
                assert(out@ =~= pre + spec_render_slots(taken, indent_level as nat + 1));
            }
        }
        proof {
            assert(self.registers@.take(self.registers@.len() as int) =~= self.registers@);
        }
        append_indent(out, indent_level);
        out.append("}");
        proof {
            assert(out@ =~= old(out)@ + self.spec_render(indent_level as nat));
        }
    }

    /// The definition's rendering at indent level zero, as a fresh string.
    pub fn render(&self) -> (s: String)
        ensures
            s@ == self.spec_render(0),
    {
        let mut s = String::new();
        self.write_indented(&mut s, 0);
        proof {
            assert(s@ =~= self.spec_render(0));
        }
        s
    }
}

impl PeripheralInstance {
    /// The characters a peripheral instance renders as:
    /// `<ident>: <path> @ 0x<address>`.
    pub open spec fn spec_render(self) -> Seq<char> {
        self.ident.spec_render() + ": "@ + self.path.spec_render() + " @ 0x"@ + spec_hex(
            self.address as nat,
        )
    }

    /// Appends the instance's rendering to `out`.
    pub fn write(&self, out: &mut String)
        ensures
            final(out)@ == old(out)@ + self.spec_render(),
    {
        self.ident.write(out);
        out.append(": ");
        self.path.write(out);
        out.append(" @ 0x");
        append_hex(out, self.address);
        proof {
            assert(out@ =~= old(out)@ + self.spec_render());
        }
    }
}

} // verus!
