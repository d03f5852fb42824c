//! String literals in source text.

use vstd::prelude::*;

verus! {

/// How one character is written inside a string literal: a backslash
/// before a quotation mark and before a backslash, the usual two-character
/// escapes for line feed, carriage return, tabulator and the zero
/// character, and every other character as itself.
pub open spec fn escape_char(c: char) -> Seq<char> {
    if c == '"' {
        seq!['\\', '"']
    } else if c == '\\' {
        seq!['\\', '\\']
    } else if c == '\n' {
        seq!['\\', 'n']
    } else if c == '\r' {
        seq!['\\', 'r']
    } else if c == '\t' {
        seq!['\\', 't']
    } else if c == '\0' {
        seq!['\\', '0']
    } else {
        seq![c]
    }
}

/// The characters of a text as they are written inside a string literal.
pub open spec fn escaped(s: Seq<char>) -> Seq<char>
    decreases s.len(),
{
    if s.len() == 0 {
        Seq::empty()
    } else {
        escaped(s.drop_last()) + escape_char(s.last())
    }
}

/// The string literal that denotes a text.
pub open spec fn literal_of(s: Seq<char>) -> Seq<char> {
    seq!['"'] + escaped(s) + seq!['"']
}

/// Appends to `out` the string literal that denotes `s`.
pub fn push_literal(out: &mut String, s: &str)
    ensures
        final(out)@ == old(out)@ + literal_of(s@),
{
    let ghost start = out@;
    out.push('"');
    for c in it: s.chars()
        invariant
            it.seq() == s@,
            out@ == start + seq!['"'] + escaped(s@.take(it.index() as int)),
    {
        proof {
            assert(s@.take(it.index() + 1).drop_last() =~= s@.take(it.index() as int));
        }
        let ghost before = out@;
        if c == '"' {
            out.push('\\');
            out.push('"');
        } else if c == '\\' {
            out.push('\\');
            out.push('\\');
        } else if c == '\n' {
            out.push('\\');
            out.push('n');
        } else if c == '\r' {
            out.push('\\');
            out.push('r');
        } else if c == '\t' {
            out.push('\\');
            out.push('t');
        } else if c == '\0' {
            out.push('\\');
            out.push('0');
        } else {
            out.push(c);
        }
        assert(out@ =~= before + escape_char(c));
        assert(out@ =~= start + seq!['"'] + escaped(s@.take(it.index() + 1)));
    }
    proof {
        assert(s@.take(s@.len() as int) =~= s@);
    }
    out.push('"');
    assert(out@ =~= start + literal_of(s@));
}

/// The string literal that denotes `s`.
pub fn rust_literal(s: &str) -> (r: String)
    ensures
        r@ == literal_of(s@),
{
    let mut out = String::new();
    push_literal(&mut out, s);
    assert(out@ =~= literal_of(s@));
    out
}

/// The character that stands for the escape `\c`.
pub open spec fn escape_meaning(c: char) -> char {
    if c == 'n' {
        '\n'
    } else if c == 'r' {
        '\r'
    } else if c == 't' {
        '\t'
    } else if c == '0' {
        '\0'
    } else {
        c
    }
}

/// The text that the inside of a string literal denotes: a backslash and
/// the character after it stand for one character, every other character
/// for itself.
pub open spec fn unescaped(t: Seq<char>) -> Seq<char>
    decreases t.len(),
{
    if t.len() == 0 {
        Seq::empty()
    } else if t[0] == '\\' && t.len() >= 2 {
        seq![escape_meaning(t[1])] + unescaped(t.skip(2))
    } else {
        seq![t[0]] + unescaped(t.skip(1))
    }
}

/// Escaping starts with the first character's escape.
proof fn lemma_escaped_from_the_front(c: char, s: Seq<char>)
    ensures
        escaped(seq![c] + s) == escape_char(c) + escaped(s),
    decreases s.len(),
{
    if s.len() == 0 {
        assert(seq![c] + s =~= seq![c]);
        assert(seq![c].drop_last() =~= Seq::<char>::empty());
        assert(escaped(Seq::<char>::empty()) =~= Seq::<char>::empty());
        assert(seq![c].last() == c);
        assert(escaped(seq![c]) =~= escaped(seq![c].drop_last()) + escape_char(c));
        assert(escaped(seq![c]) =~= escape_char(c));
        assert(escape_char(c) + escaped(s) =~= escape_char(c));
    } else {
        lemma_escaped_from_the_front(c, s.drop_last());
        assert((seq![c] + s).drop_last() =~= seq![c] + s.drop_last());
        assert((seq![c] + s).last() == s.last());
        assert(escaped(seq![c] + s) =~= escape_char(c) + escaped(s));
    }
}

/// What is written inside a string literal for a text denotes that text:
/// every character comes back, line breaks and quotation marks among
/// them.
pub proof fn lemma_unescaped_escaped(s: Seq<char>)
    ensures
        unescaped(escaped(s)) == s,
    decreases s.len(),
{
    if s.len() == 0 {
        assert(escaped(s) =~= Seq::<char>::empty());
    } else {
        let c = s[0];
        let rest = s.skip(1);
        assert(s =~= seq![c] + rest);
        lemma_escaped_from_the_front(c, rest);
        lemma_unescaped_escaped(rest);
        let t = escape_char(c) + escaped(rest);
        if escape_char(c).len() == 2 {
            assert(t[0] == '\\');
            assert(t.skip(2) =~= escaped(rest));
            assert(escape_meaning(t[1]) == c);
        } else {
            assert(t[0] == c);
            assert(c != '\\');
            assert(t.skip(1) =~= escaped(rest));
        }
        assert(unescaped(t) =~= seq![c] + rest);
    }
}

} // verus!
