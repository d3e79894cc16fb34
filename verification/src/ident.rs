//! Atomic name tokens and namespaced references to them.

use vstd::prelude::*;

verus! {

/// An atomic name token. The token is expected to be a non-empty, valid
/// definition-language identifier; rendering reproduces it verbatim and
/// performs no validation.
#[derive(Debug, PartialEq, Clone)]
pub struct Ident {
    pub name: String,
}

/// A namespaced reference: an ordered (expectedly non-empty) sequence of
/// identifiers, rendered joined by `::` with no leading or trailing separator.
#[derive(Debug, PartialEq, Clone)]
pub struct Path {
    pub segments: Vec<Ident>,
}

impl Ident {
    /// The characters an identifier renders as: its token, verbatim.
    pub open spec fn spec_render(self) -> Seq<char> {
        self.name@
    }

    /// Appends the identifier's token to `out`.
    pub fn write(&self, out: &mut String)
        ensures
            final(out)@ == old(out)@ + self.spec_render(),
    {
        out.append(self.name.as_str());
    }

    /// The identifier's rendering as a fresh string.
    pub fn render(&self) -> (s: String)
        ensures
            s@ == self.spec_render(),
    {
        let mut s = String::new();
        self.write(&mut s);
        proof {
            assert(s@ =~= self.spec_render());
        }
        s
    }
}

/// The characters a sequence of path segments renders as: the segments'
/// tokens joined by `::`, with no separator around the ends.
pub open spec fn spec_render_segments(segments: Seq<Ident>) -> Seq<char>
    decreases segments.len(),
{
    if segments.len() == 0 {
        Seq::empty()
    } else if segments.len() == 1 {
        segments[0].spec_render()
    } else {
        spec_render_segments(segments.drop_last()) + "::"@ + segments.last().spec_render()
    }
}

impl Path {
    /// The characters a path renders as.
    pub open spec fn spec_render(self) -> Seq<char> {
        spec_render_segments(self.segments@)
    }

    /// Appends the path's rendering to `out`.
    pub fn write(&self, out: &mut String)
        ensures
            final(out)@ == old(out)@ + self.spec_render(),
    {
        let ghost pre: Seq<char> = out@;
        let mut i: usize = 0;
        while i < self.segments.len()
            invariant
                i <= self.segments@.len(),
                out@ == pre + spec_render_segments(self.segments@.take(i as int)),
            decreases self.segments@.len() - i,
        {
            if i > 0 {
                out.append("::");
            }
            self.segments[i].write(out);
            i = i + 1;
            proof {
                let taken = self.segments@.take(i as int);
                assert(taken.len() == i);
                assert(taken.last() == self.segments@[i - 1]);
                if i > 1 {
                    assert(taken.drop_last() =~= self.segments@.take(i - 1));
                }
                assert(out@ =~= pre + spec_render_segments(taken));
            }
        }
        proof {
            assert(self.segments@.take(self.segments@.len() as int) =~= self.segments@);
        }
    }

    /// The path's rendering as a fresh string.
    pub fn render(&self) -> (s: String)
        ensures
            s@ == self.spec_render(),
    {
        let mut s = String::new();
        self.write(&mut s);
        proof {
            assert(s@ =~= self.spec_render());
        }
        s
    }
}

impl From<Ident> for Path {
    /// Wraps an identifier into a single-segment path.
    fn from(ident: Ident) -> (r: Path)
        ensures
            r.segments@ == seq![ident],
    {
        let mut segments: Vec<Ident> = Vec::new();
        segments.push(ident);
        proof {
            assert(segments@ =~= seq![ident]);
        }
        Path { segments }
    }
}

impl vstd::std_specs::convert::FromSpecImpl<Ident> for Path {
    open spec fn obeys_from_spec() -> bool {
        false
    }

    open spec fn from_spec(ident: Ident) -> Path {
        arbitrary()
    }
}

impl<'a> From<&'a str> for Ident {
    /// Takes a plain text token as an identifier.
    fn from(name: &'a str) -> (r: Ident)
        ensures
            r.name@ == name@,
    {
        Ident { name: name.to_owned() }
    }
}

impl<'a> vstd::std_specs::convert::FromSpecImpl<&'a str> for Ident {
    open spec fn obeys_from_spec() -> bool {
        false
    }

    open spec fn from_spec(name: &'a str) -> Ident {
        arbitrary()
    }
}

/// A single-segment path renders exactly as the identifier it wraps: wrapping
/// an `Ident` built from token `t` into a `Path` and rendering yields `t`.
pub proof fn lemma_single_segment_path_renders_token(p: Path, ident: Ident)
    requires
        p.segments@ == seq![ident],
    ensures
        p.spec_render() == ident.name@,
{
    assert(p.segments@.len() == 1);
    assert(p.segments@[0] == ident);
}

} // verus!
