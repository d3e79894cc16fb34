//! Import declarations: `use` statements and their possibly nested trees.

use vstd::prelude::*;

use crate::ident::Ident;
use crate::text::spec_indent;
use crate::text::append_indent;

verus! {

/// A `use` statement wrapping one import tree.
#[derive(Debug, PartialEq)]
pub struct Use {
    pub tree: UseTree,
}

/// A node in a `Use` statement's import tree. A `Path` node owns exactly one
/// child, so every tree terminates in an `Ident` or `Rename` leaf.
#[derive(Debug, PartialEq)]
pub enum UseTree {
    Ident(Ident),
    Rename { ident: Ident, rename: Ident },
    Path { path_segment: Ident, sub_tree: Box<UseTree> },
}

impl UseTree {
    /// The characters an import tree renders as: plain token for a leaf,
    /// `a as b` for a rename, and `seg::<sub tree>` for a nested path.
    pub open spec fn spec_render(self) -> Seq<char>
        decreases self,
    {
        match self {
            UseTree::Ident(x) => x.spec_render(),
            UseTree::Rename { ident, rename } => ident.spec_render() + " as "@
                + rename.spec_render(),
            UseTree::Path { path_segment, sub_tree } => path_segment.spec_render() + "::"@
                + sub_tree.spec_render(),
        }
    }

    /// Appends the tree's rendering to `out`. The indent level is threaded
    /// through for uniformity with the other renderers; a tree is always
    /// inline, so it never produces indentation of its own.
    pub fn write_indented(&self, out: &mut String, indent_level: u32)
        ensures
            final(out)@ == old(out)@ + self.spec_render(),
        decreases *self,
    {
        match self {
            UseTree::Ident(x) => {
                x.write(out);
            },
            UseTree::Rename { ident, rename } => {
                ident.write(out);
                out.append(" as ");
                rename.write(out);
            },
            UseTree::Path { path_segment, sub_tree } => {
                path_segment.write(out);
                out.append("::");
                sub_tree.write_indented(out, indent_level);
            },
        }
        proof {
            assert(out@ =~= old(out)@ + self.spec_render());
        }
    }
}

impl Use {
    /// The characters a `use` statement renders as at the given indent level.
    pub open spec fn spec_render(self, indent_level: nat) -> Seq<char> {
        spec_indent(indent_level) + "use "@ + self.tree.spec_render() + ";"@
    }

    /// Appends the statement's rendering to `out` at the given indent level.
    pub fn write_indented(&self, out: &mut String, indent_level: u32)
        ensures
            final(out)@ == old(out)@ + self.spec_render(indent_level as nat),
    {
        append_indent(out, indent_level);
        out.append("use ");
        self.tree.write_indented(out, indent_level);
        out.append(";");
        proof {
            assert(out@ =~= old(out)@ + self.spec_render(indent_level as nat));
        }
    }

    /// The statement's rendering at indent level zero, as a fresh string.
    pub fn render(&self) -> (s: String)
        ensures
            s@ == self.spec_render(0),
    {
        let mut s = String::new();
        self.write_indented(&mut s, 0);
        proof {
            assert(s@ =~= self.spec_render(0));
        }
        s
    }
}

impl From<Ident> for UseTree {
    /// Takes a bare identifier as a leaf import tree.
    fn from(ident: Ident) -> (r: UseTree) {
        UseTree::Ident(ident)
    }
}

impl vstd::std_specs::convert::FromSpecImpl<Ident> for UseTree {
    open spec fn obeys_from_spec() -> bool {
        true
    }

    open spec fn from_spec(ident: Ident) -> UseTree {
        UseTree::Ident(ident)
    }
}

} // verus!
