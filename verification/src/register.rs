//! The register layer: named register types, their bitfields, and their
//! placement inside a peripheral.

use vstd::prelude::*;

use crate::access::Access;
use crate::ident::Ident;
use crate::ident::Path;
use crate::text::append_dec;
use crate::text::append_doc_comment;
use crate::text::append_hex;
use crate::text::append_indent;
use crate::text::spec_dec;
use crate::text::spec_doc_comment;
use crate::text::spec_hex;
use crate::text::spec_indent;

verus! {

/// One bitfield within a register: an inclusive bit range, an optional
/// description and an optional access constraint.
#[derive(Debug, PartialEq, Clone)]
pub struct FieldInstance {
    pub ident: Ident,
    pub description: Option<String>,
    pub bit_start: u64,
    pub bit_end: u64,
    pub access: Option<Access>,
}

/// A named register type: its access, bit width, optional reset value and
/// ordered bitfields.
#[derive(Debug, PartialEq, Clone)]
pub struct RegisterDefinition {
    pub access: Access,
    pub ident: Ident,
    pub description: Option<String>,
    pub size: u64,
    pub reset_value: Option<u64>,
    pub fields: Vec<FieldInstance>,
}

/// The reference shape of a register placement: one register, or an array of
/// repeats of one register.
#[derive(Debug, PartialEq, Clone)]
pub enum RegisterType {
    Single { path: Path },
    Array { path: Path, size: u64 },
}

/// A named placement of a register type.
#[derive(Debug, PartialEq, Clone)]
pub struct RegisterInstance {
    pub ident: Ident,
    pub ty: RegisterType,
}

/// A placement of registers at a fixed offset within a peripheral: either one
/// instance, or several mutually exclusive alternatives sharing the offset.
#[derive(Debug, PartialEq, Clone)]
pub enum RegisterSlot {
    Single { instance: RegisterInstance, offset: u64 },
    Overloaded { alternatives: Vec<RegisterInstance>, offset: u64 },
}

impl FieldInstance {
    /// The characters a bitfield renders as: the access keyword when one is
    /// present (suppressed entirely when absent), the field name and the
    /// inclusive bit range `[<bit_start>..<bit_end>]`.
    pub open spec fn spec_render(self) -> Seq<char> {
        (match self.access {
            Some(a) => a.spec_render() + " "@,
            None => Seq::empty(),
        }) + self.ident.spec_render() + "["@ + spec_dec(self.bit_start as nat) + ".."@ + spec_dec(
            self.bit_end as nat,
        ) + "]"@
    }

    /// Appends the bitfield's rendering to `out`.
    pub fn write(&self, out: &mut String)
        ensures
            final(out)@ == old(out)@ + self.spec_render(),
    {
        match &self.access {
            Some(a) => {
                a.write(out);
                out.append(" ");
            },
            None => {},
        }
        self.ident.write(out);
        out.append("[");
        append_dec(out, self.bit_start);
        out.append("..");
        append_dec(out, self.bit_end);
        out.append("]");
        proof {
            assert(out@ =~= old(out)@ + self.spec_render());
        }
    }
}

/// The characters a register's bitfields render as: each one level deep on a
/// comma-terminated line of its own, in declaration order.
pub open spec fn spec_render_fields(fields: Seq<FieldInstance>, indent_level: nat) -> Seq<char>
    decreases fields.len(),
{
    if fields.len() == 0 {
        Seq::empty()
    } else {
        spec_render_fields(fields.drop_last(), indent_level) + spec_indent(indent_level)
            + fields.last().spec_render() + ",\n"@
    }
}

impl RegisterDefinition {
    /// The characters a register definition renders as at the given indent
    /// level: an optional doc-comment line, then
    /// `<access> register[<size>] <ident>` with an optional
    /// ` = 0x<reset value>` clause (omitted entirely, `=` included, when the
    /// reset value is absent), then the bitfields in braces.
    pub open spec fn spec_render(self, indent_level: nat) -> Seq<char> {
        spec_doc_comment(self.description, indent_level) + spec_indent(indent_level)
            + self.access.spec_render() + " register["@ + spec_dec(self.size as nat) + "] "@
            + self.ident.spec_render() + (match self.reset_value {
            Some(v) => " = 0x"@ + spec_hex(v as nat),
            None => Seq::empty(),
        }) + " {\n"@ + spec_render_fields(self.fields@, indent_level + 1) + spec_indent(
            indent_level,
        ) + "}"@
    }

    /// Appends the definition's rendering to `out` at the given indent level.
    #[verifier::rlimit(50)]
    pub fn write_indented(&self, out: &mut String, indent_level: u32)
        requires
            indent_level < u32::MAX,
        ensures
            final(out)@ == old(out)@ + self.spec_render(indent_level as nat),
    {
        append_doc_comment(out, &self.description, indent_level);
        append_indent(out, indent_level);
        self.access.write(out);
        out.append(" register[");
        append_dec(out, self.size);
        out.append("] ");
        self.ident.write(out);
        match &self.reset_value {
            Some(v) => {
                out.append(" = 0x");
                append_hex(out, *v);
            },
            None => {},
        }
        out.append(" {\n");
        let ghost pre: Seq<char> = out@;
        proof {
            assert(out@ =~= pre + spec_render_fields(self.fields@.take(0),
                indent_level as nat + 1));
        }
        let mut i: usize = 0;
        while i < self.fields.len()
            invariant
                i <= self.fields@.len(),
                indent_level < u32::MAX,
                out@ == pre + spec_render_fields(self.fields@.take(i as int),
                    indent_level as nat + 1),
            decreases self.fields@.len() - i,
        {
            append_indent(out, indent_level + 1);
            self.fields[i].write(out);
            out.append(",\n");
            i = i + 1;
            proof {
                let taken = self.fields@.take(i as int);
                assert(taken.last() == self.fields@[i - 1]);
                assert(taken.drop_last() =~= self.fields@.take(i - 1));
                assert(out@ =~= pre + spec_render_fields(taken, indent_level as nat + 1));
            }
        }
        proof {
            assert(self.fields@.take(self.fields@.len() as int) =~= self.fields@);
        }
        append_indent(out, indent_level);
        out.append("}");
        proof {
            assert(out@ =~= old(out)@ + self.spec_render(indent_level as nat));
        }
    }

    /// The definition's rendering at indent level zero, as a fresh string.
    pub fn render(&self) -> (s: String)
        ensures
            s@ == self.spec_render(0),
    {
        let mut s = String::new();
        self.write_indented(&mut s, 0);
        proof {
            assert(s@ =~= self.spec_render(0));
        }
        s
    }
}

impl RegisterType {
    /// The characters a register type reference renders as: the path alone
    /// for a single register, and `[<path>; <size>]` for an array.
    pub open spec fn spec_render(self) -> Seq<char> {
        match self {
            RegisterType::Single { path } => path.spec_render(),
            RegisterType::Array { path, size } => "["@ + path.spec_render() + "; "@ + spec_dec(
                size as nat,
            ) + "]"@,
        }
    }

    /// Appends the type reference's rendering to `out`.
    pub fn write(&self, out: &mut String)
        ensures
            final(out)@ == old(out)@ + self.spec_render(),
    {
        match self {
            RegisterType::Single { path } => {
                path.write(out);
            },
            RegisterType::Array { path, size } => {
                out.append("[");
                path.write(out);
                out.append("; ");
                append_dec(out, *size);
                out.append("]");
            },
        }
        proof {
            assert(out@ =~= old(out)@ + self.spec_render());
        }
    }
}

impl RegisterInstance {
    /// The characters a register instance renders as: `<ident>: <type>`.
    pub open spec fn spec_render(self) -> Seq<char> {
        self.ident.spec_render() + ": "@ + self.ty.spec_render()
    }

    /// Appends the instance's rendering to `out`.
    pub fn write(&self, out: &mut String)
        ensures
            final(out)@ == old(out)@ + self.spec_render(),
    {
        self.ident.write(out);
        out.append(": ");
        self.ty.write(out);
        proof {
            assert(out@ =~= old(out)@ + self.spec_render());
        }
    }
}

/// The characters an overloaded slot's alternatives render as: the instances
/// joined by ` | `, with no separator around the ends.
pub open spec fn spec_render_alternatives(alternatives: Seq<RegisterInstance>) -> Seq<char>
    decreases alternatives.len(),
{
    if alternatives.len() == 0 {
        Seq::empty()
    } else if alternatives.len() == 1 {
        alternatives[0].spec_render()
    } else {
        spec_render_alternatives(alternatives.drop_last()) + " | "@
            + alternatives.last().spec_render()
    }
}

impl RegisterSlot {
    /// The characters a slot renders as: `<instance> @ 0x<offset>` for a
    /// single placement, and a parenthesized, pipe-separated alternative list
    /// `(<a> | <b> | ...) @ 0x<offset>` for an overloaded one.
    pub open spec fn spec_render(self) -> Seq<char> {
        match self {
            RegisterSlot::Single { instance, offset } => instance.spec_render() + " @ 0x"@
                + spec_hex(offset as nat),
            RegisterSlot::Overloaded { alternatives, offset } => "("@ + spec_render_alternatives(
                alternatives@,
            ) + ") @ 0x"@ + spec_hex(offset as nat),
        }
    }

    /// Appends the slot's rendering to `out`.
    pub fn write(&self, out: &mut String)
        ensures
            final(out)@ == old(out)@ + self.spec_render(),
    {
        match self {
            RegisterSlot::Single { instance, offset } => {
                instance.write(out);
                out.append(" @ 0x");
                append_hex(out, *offset);
            },
            RegisterSlot::Overloaded { alternatives, offset } => {
                out.append("(");
                let ghost pre: Seq<char> = out@;
                proof {
                    assert(out@ =~= pre + spec_render_alternatives(alternatives@.take(0)));
                }
                let mut i: usize = 0;
                while i < alternatives.len()
                    invariant
                        i <= alternatives@.len(),
                        out@ == pre + spec_render_alternatives(alternatives@.take(i as int)),
                    decreases alternatives@.len() - i,
                {
                    if i > 0 {
                        out.append(" | ");
                    }
                    alternatives[i].write(out);
                    i = i + 1;
                    proof {
                        let taken = alternatives@.take(i as int);
                        assert(taken.last() == alternatives@[i - 1]);
                        if i > 1 {
                            assert(taken.drop_last() =~= alternatives@.take(i - 1));
                        }
                        assert(out@ =~= pre + spec_render_alternatives(taken));
                    }
                }
                proof {
                    assert(alternatives@.take(alternatives@.len() as int) =~= alternatives@);
                }
                out.append(") @ 0x");
                append_hex(out, *offset);
            },
        }
        proof {
            assert(out@ =~= old(out)@ + self.spec_render());
        }
    }
}

} // verus!
