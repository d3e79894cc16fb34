//! Low-level text building blocks shared by every renderer: indentation,
//! decimal numbers and lowercase hexadecimal numbers.

use vstd::prelude::*;

verus! {

/// One indent step is four spaces; a level is that step repeated.
pub open spec fn spec_indent(level: nat) -> Seq<char>
    decreases level,
{
    if level == 0 {
        Seq::empty()
    } else {
        spec_indent((level - 1) as nat) + "    "@
    }
}

/// The digit character for a value below sixteen, as lowercase hexadecimal.
pub open spec fn spec_digit(d: nat) -> char {
    if d == 0 {
        '0'
    } else if d == 1 {
        '1'
    } else if d == 2 {
        '2'
    } else if d == 3 {
        '3'
    } else if d == 4 {
        '4'
    } else if d == 5 {
        '5'
    } else if d == 6 {
        '6'
    } else if d == 7 {
        '7'
    } else if d == 8 {
        '8'
    } else if d == 9 {
        '9'
    } else if d == 10 {
        'a'
    } else if d == 11 {
        'b'
    } else if d == 12 {
        'c'
    } else if d == 13 {
        'd'
    } else if d == 14 {
        'e'
    } else {
        'f'
    }
}

/// The decimal digits of a number, most significant first, with no sign and
/// no leading zeros beyond a single `0` for zero itself.
pub open spec fn spec_dec(n: nat) -> Seq<char>
    decreases n,
{
    if n < 10 {
        seq![spec_digit(n)]
    } else {
        spec_dec(n / 10).push(spec_digit(n % 10))
    }
}

/// The lowercase hexadecimal digits of a number, most significant first, with
/// no `0x` prefix, no sign and no leading zeros beyond a single `0` for zero.
pub open spec fn spec_hex(n: nat) -> Seq<char>
    decreases n,
{
    if n < 16 {
        seq![spec_digit(n)]
    } else {
        spec_hex(n / 16).push(spec_digit(n % 16))
    }
}

/// Appends `level` indent steps to `out`.
pub fn append_indent(out: &mut String, level: u32)
    ensures
        final(out)@ == old(out)@ + spec_indent(level as nat),
{
    proof {
        assert(out@ =~= out@ + spec_indent(0));
    }
    let mut i: u32 = 0;
    while i < level
        invariant
            i <= level,
            out@ == old(out)@ + spec_indent(i as nat),
        decreases level - i,
    {
        out.append("    ");
        i = i + 1;
        proof {
            assert(spec_indent(i as nat) == spec_indent((i - 1) as nat) + "    "@);
            assert(out@ =~= old(out)@ + spec_indent(i as nat));
        }
    }
}

/// Appends the single digit character for `d`, which must be below sixteen.
fn append_digit(out: &mut String, d: u64)
    requires
        d < 16,
    ensures
        final(out)@ == old(out)@ + seq![spec_digit(d as nat)],
{
    if d == 0 {
        proof {
            reveal_strlit("0");
        }
        out.append("0");
    } else if d == 1 {
        proof {
            reveal_strlit("1");
        }
        out.append("1");
    } else if d == 2 {
        proof {
            reveal_strlit("2");
        }
        out.append("2");
    } else if d == 3 {
        proof {
            reveal_strlit("3");
        }
        out.append("3");
    } else if d == 4 {
        proof {
            reveal_strlit("4");
        }
        out.append("4");
    } else if d == 5 {
        proof {
            reveal_strlit("5");
        }
        out.append("5");
    } else if d == 6 {
        proof {
            reveal_strlit("6");
        }
        out.append("6");
    } else if d == 7 {
        proof {
            reveal_strlit("7");
        }
        out.append("7");
    } else if d == 8 {
        proof {
            reveal_strlit("8");
        }
        out.append("8");
    } else if d == 9 {
        proof {
            reveal_strlit("9");
        }
        out.append("9");
    } else if d == 10 {
        proof {
            reveal_strlit("a");
        }
        out.append("a");
    } else if d == 11 {
        proof {
            reveal_strlit("b");
        }
        out.append("b");
    } else if d == 12 {
        proof {
            reveal_strlit("c");
        }
        out.append("c");
    } else if d == 13 {
        proof {
            reveal_strlit("d");
        }
        out.append("d");
    } else if d == 14 {
        proof {
            reveal_strlit("e");
        }
        out.append("e");
    } else {
        proof {
            reveal_strlit("f");
        }
        out.append("f");
    }
    proof {
        assert(out@ =~= old(out)@ + seq![spec_digit(d as nat)]);
    }
}

/// The characters an optional description renders as: a `///` doc-comment
/// line of its own when present, and nothing at all when absent.
pub open spec fn spec_doc_comment(description: Option<String>, indent_level: nat) -> Seq<char> {
    match description {
        Some(d) => spec_indent(indent_level) + "///"@ + d@ + "\n"@,
        None => Seq::empty(),
    }
}

/// Appends the doc-comment line for `description`, if there is one.
pub fn append_doc_comment(out: &mut String, description: &Option<String>, indent_level: u32)
    ensures
        final(out)@ == old(out)@ + spec_doc_comment(*description, indent_level as nat),
{
    match description {
        Some(d) => {
            append_indent(out, indent_level);
            out.append("///");
            out.append(d.as_str());
            out.append("\n");
            proof {
                assert(out@ =~= old(out)@ + spec_doc_comment(*description,
                    indent_level as nat));
            }
        },
        None => {
            proof {
                assert(out@ =~= old(out)@ + spec_doc_comment(*description,
                    indent_level as nat));
            }
        },
    }
}

/// Appends `n` in decimal.
pub fn append_dec(out: &mut String, n: u64)
    ensures
        final(out)@ == old(out)@ + spec_dec(n as nat),
    decreases n,
{
    if n >= 10 {
        append_dec(out, n / 10);
    }
    append_digit(out, n % 10);
    proof {
        assert(out@ =~= old(out)@ + spec_dec(n as nat));
    }
}

/// Appends `n` in lowercase hexadecimal, without a `0x` prefix.
pub fn append_hex(out: &mut String, n: u64)
    ensures
        final(out)@ == old(out)@ + spec_hex(n as nat),
    decreases n,
{
    if n >= 16 {
        append_hex(out, n / 16);
    }
    append_digit(out, n % 16);
    proof {
        assert(out@ =~= old(out)@ + spec_hex(n as nat));
    }
}

} // verus!
