//! Top-level declarations: items, named modules and whole-file contents.

use vstd::prelude::*;

use crate::ident::Ident;
use crate::text::spec_indent;
use crate::text::append_indent;
use crate::used::Use;

verus! {

/// A top-level declaration. The set is closed today but designed to grow;
/// every consumer dispatches exhaustively on it.
#[derive(Debug, PartialEq)]
pub enum Item {
    Use(Use),
}

/// A named module declaration. An absent body is an external (forward)
/// declaration; a present body — possibly empty — is an inline declaration
/// with braces.
#[derive(Debug, PartialEq)]
pub struct Module {
    pub ident: Ident,
    pub content: Option<Vec<Item>>,
}

/// The ordered top-level items of one compilation unit: the root of a
/// rendering pass, with no name and no enclosing braces.
#[derive(Debug, PartialEq)]
pub struct FileContent {
    pub content: Vec<Item>,
}

impl Item {
    /// The characters an item renders as at the given indent level.
    pub open spec fn spec_render(self, indent_level: nat) -> Seq<char> {
        match self {
            Item::Use(u) => u.spec_render(indent_level),
        }
    }

    /// Appends the item's rendering to `out` at the given indent level.
    pub fn write_indented(&self, out: &mut String, indent_level: u32)
        ensures
            final(out)@ == old(out)@ + self.spec_render(indent_level as nat),
    {
        match self {
            Item::Use(u) => u.write_indented(out, indent_level),
        }
    }
}

/// The characters a sequence of items renders as: each item at the given
/// indent level, each on a line of its own.
pub open spec fn spec_render_items(items: Seq<Item>, indent_level: nat) -> Seq<char>
    decreases items.len(),
{
    if items.len() == 0 {
        Seq::empty()
    } else {
        spec_render_items(items.drop_last(), indent_level) + items.last().spec_render(indent_level)
            + "\n"@
    }
}

/// Appends each item's rendering to `out` at the given indent level, each
/// followed by a line break.
fn write_items(items: &Vec<Item>, out: &mut String, indent_level: u32)
    ensures
        final(out)@ == old(out)@ + spec_render_items(items@, indent_level as nat),
{
    let ghost pre: Seq<char> = out@;
    proof {
        assert(out@ =~= pre + spec_render_items(items@.take(0), indent_level as nat));
    }
    let mut i: usize = 0;
    while i < items.len()
        invariant
            i <= items@.len(),
            out@ == pre + spec_render_items(items@.take(i as int), indent_level as nat),
        decreases items@.len() - i,
    {
        items[i].write_indented(out, indent_level);
        out.append("\n");
        i = i + 1;
        proof {
            let taken = items@.take(i as int);
            assert(taken.last() == items@[i - 1]);
            assert(taken.drop_last() =~= items@.take(i - 1));
            assert(out@ =~= pre + spec_render_items(taken, indent_level as nat));
        }
    }
    proof {
        assert(items@.take(items@.len() as int) =~= items@);
    }
}

impl Module {
    /// The characters a module declaration renders as at the given indent
    /// level: `mod <ident>;` without a body, and `mod <ident> { <items> }`
    /// with one, the items one level deeper.
    pub open spec fn spec_render(self, indent_level: nat) -> Seq<char> {
        match self.content {
            None => spec_indent(indent_level) + "mod "@ + self.ident.spec_render() + ";"@,
            Some(items) => spec_indent(indent_level) + "mod "@ + self.ident.spec_render() + " {\n"@
                + spec_render_items(items@, indent_level + 1) + spec_indent(indent_level) + "}"@,
        }
    }

    /// Appends the module's rendering to `out` at the given indent level.
    pub fn write_indented(&self, out: &mut String, indent_level: u32)
        requires
            indent_level < u32::MAX,
        ensures
            final(out)@ == old(out)@ + self.spec_render(indent_level as nat),
    {
        append_indent(out, indent_level);
        out.append("mod ");
        self.ident.write(out);
        match &self.content {
            None => {
                out.append(";");
            },
            Some(items) => {
                out.append(" {\n");
                write_items(items, out, indent_level + 1);
                append_indent(out, indent_level);
                out.append("}");
            },
        }
        proof {
            assert(out@ =~= old(out)@ + self.spec_render(indent_level as nat));
        }
    }

    /// The module's rendering at indent level zero, as a fresh string.
    pub fn render(&self) -> (s: String)
        ensures
            s@ == self.spec_render(0),
    {
        let mut s = String::new();
        self.write_indented(&mut s, 0);
        proof {
            assert(s@ =~= self.spec_render(0));
        }
        s
    }
}

impl FileContent {
    /// The characters a file's contents render as at the given indent level:
    /// the items in order, each on a line of its own, with no enclosing block.
    pub open spec fn spec_render(self, indent_level: nat) -> Seq<char> {
        spec_render_items(self.content@, indent_level)
    }

    /// Appends the file's rendering to `out` at the given indent level.
    pub fn write_indented(&self, out: &mut String, indent_level: u32)
        ensures
            final(out)@ == old(out)@ + self.spec_render(indent_level as nat),
    {
        write_items(&self.content, out, indent_level);
    }

    /// The file's rendering at indent level zero, as a fresh string.
    pub fn render(&self) -> (s: String)
        ensures
            s@ == self.spec_render(0),
    {
        let mut s = String::new();
        self.write_indented(&mut s, 0);
        proof {
            assert(s@ =~= self.spec_render(0));
        }
        s
    }
}

/// Rendering is deterministic: the rendering of a file's contents is a
/// function of the item tree and the indent level alone, so any two
/// renderings of the same contents at the same level are
/// character-for-character identical.
pub proof fn lemma_render_deterministic(
    file: FileContent,
    indent_level: nat,
    s1: Seq<char>,
    s2: Seq<char>,
)
    requires
        s1 == file.spec_render(indent_level),
        s2 == file.spec_render(indent_level),
    ensures
        s1 == s2,
{
}

} // verus!
