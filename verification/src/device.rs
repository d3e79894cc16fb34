//! The device layer: a named collection of peripheral instances.

use vstd::prelude::*;

use crate::ident::Ident;
use crate::peripheral::PeripheralDefinition;
use crate::peripheral::PeripheralInstance;
use crate::text::append_doc_comment;
use crate::text::append_indent;
use crate::text::spec_doc_comment;
use crate::text::spec_indent;

verus! {

/// A named device: an ordered collection of peripheral instances. A device
/// block renders with the same leading keyword as a peripheral block; that is
/// the observed grammar, reproduced exactly.
#[derive(Debug, PartialEq, Clone)]
pub struct DeviceDefinition {
    pub ident: Ident,
    pub description: Option<String>,
    pub peripherals: Vec<PeripheralInstance>,
}

/// The characters a device's peripheral instances render as: each one level
/// deep on a comma-terminated line of its own, in declaration order.
pub open spec fn spec_render_instances(
    instances: Seq<PeripheralInstance>,
    indent_level: nat,
) -> Seq<char>
    decreases instances.len(),
{
    if instances.len() == 0 {
        Seq::empty()
    } else {
        spec_render_instances(instances.drop_last(), indent_level) + spec_indent(indent_level)
            + instances.last().spec_render() + ",\n"@
    }
}

impl DeviceDefinition {
    /// The characters a device definition renders as at the given indent
    /// level: an optional doc-comment line, then `peripheral <ident>` and the
    /// peripheral instances in braces.
    pub open spec fn spec_render(self, indent_level: nat) -> Seq<char> {
        spec_doc_comment(self.description, indent_level) + spec_indent(indent_level)
            + "peripheral "@ + self.ident.spec_render() + " {\n"@ + spec_render_instances(
            self.peripherals@,
            indent_level + 1,
        ) + spec_indent(indent_level) + "}"@
    }

    /// Appends the definition's rendering to `out` at the given indent level.
    pub fn write_indented(&self, out: &mut String, indent_level: u32)
        requires
            indent_level < u32::MAX,
        ensures
            final(out)@ == old(out)@ + self.spec_render(indent_level as nat),
    {
        append_doc_comment(out, &self.description, indent_level);
        append_indent(out, indent_level);
        out.append("peripheral ");
        self.ident.write(out);
        out.append(" {\n");
        let ghost pre: Seq<char> = out@;
        proof {
            assert(out@ =~= pre + spec_render_instances(self.peripherals@.take(0),
                indent_level as nat + 1));
        }
        let mut i: usize = 0;
        while i < self.peripherals.len()
            invariant
                i <= self.peripherals@.len(),
                indent_level < u32::MAX,
                out@ == pre + spec_render_instances(self.peripherals@.take(i as int),
                    indent_level as nat + 1),
            decreases self.peripherals@.len() - i,
        {
            append_indent(out, indent_level + 1);
            self.peripherals[i].write(out);
            out.append(",\n");
            i = i + 1;
            proof {
                let taken = self.peripherals@.take(i as int);
                assert(taken.last() == self.peripherals@[i - 1]);
                assert(taken.drop_last() =~= self.peripherals@.take(i - 1));
                assert(out@ =~= pre + spec_render_instances(taken, indent_level as nat + 1));
            }
        }
        proof {
            assert(self.peripherals@.take(self.peripherals@.len() as int) =~= self.peripherals@);
        }
        append_indent(out, indent_level);
        out.append("}");
        proof {
            assert(out@ =~= old(out)@ + self.spec_render(indent_level as nat));
        }
    }

    /// The definition's rendering at indent level zero, as a fresh string.
    pub fn render(&self) -> (s: String)
        ensures
            s@ == self.spec_render(0),
    {
        let mut s = String::new();
        self.write_indented(&mut s, 0);
        proof {
            assert(s@ =~= self.spec_render(0));
        }
        s
    }
}

/// Rendering is deterministic: the rendering of a tree is a function of the
/// tree and the indent level alone, so any two renderings of the same device
/// at the same level are character-for-character identical.
pub proof fn lemma_render_deterministic(
    device: DeviceDefinition,
    indent_level: nat,
    s1: Seq<char>,
    s2: Seq<char>,
)
    requires
        s1 == device.spec_render(indent_level),
        s2 == device.spec_render(indent_level),
    ensures
        s1 == s2,
{
}

/// A device block begins with the same leading keyword as a peripheral block,
/// not a keyword of its own: past the indentation, the rendering of a device
/// without a description starts with the same eleven characters as the
/// rendering of a peripheral without a description.
pub proof fn lemma_device_block_keyword(
    device: DeviceDefinition,
    peripheral: PeripheralDefinition,
    indent_level: nat,
)
    requires
        device.description is None,
        peripheral.description is None,
    ensures
        device.spec_render(indent_level).skip(spec_indent(indent_level).len() as int).take(11)
            == "peripheral "@,
        peripheral.spec_render(indent_level).skip(spec_indent(indent_level).len() as int).take(11)
            == "peripheral "@,
{
    reveal_strlit("peripheral ");
    let ind = spec_indent(indent_level);
    assert(device.spec_render(indent_level).skip(ind.len() as int).take(11) =~= "peripheral "@);
    assert(peripheral.spec_render(indent_level).skip(ind.len() as int).take(11)
        =~= "peripheral "@);
}

} // verus!
