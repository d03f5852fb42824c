//! Names of the generated types, derived from the function's identifier.

use vstd::prelude::*;

verus! {

/// The uppercase mapping of a character: the characters that
/// `char::to_uppercase` yields for it, in order.
pub uninterp spec fn uppercase_of(c: char) -> Seq<char>;

/// The uppercase form of an ASCII character: `a` to `z` become `A` to `Z`,
/// every other character stays.
pub open spec fn ascii_upper(c: char) -> char {
    if 'a' <= c && c <= 'z' {
        ((c as u32) - 32) as char
    } else {
        c
    }
}

/// Whether a character is ASCII.
pub open spec fn is_ascii_char(c: char) -> bool {
    (c as u32) < 128
}

/// The uppercase mapping of a character, written out for ASCII.
pub open spec fn uppercase(c: char) -> Seq<char> {
    if is_ascii_char(c) {
        seq![ascii_upper(c)]
    } else {
        uppercase_of(c)
    }
}

/// Calls `char::to_uppercase` and collects what it yields.
///
/// Trusted: the result is the character's uppercase mapping. For an ASCII
/// character that is the single character that the Unicode tables give: `A`
/// to `Z` for `a` to `z`, and the character itself otherwise.
#[verifier::external_body]
fn char_to_uppercase(c: char) -> (r: Vec<char>)
    ensures
        is_ascii_char(c) ==> r@ == seq![ascii_upper(c)],
        !is_ascii_char(c) ==> r@ == uppercase_of(c),
{
    c.to_uppercase().collect()
}

/// Whether position `i` of `s` starts a segment: it holds no underscore and
/// is the first position or follows an underscore.
pub open spec fn starts_segment(s: Seq<char>, i: int) -> bool {
    s[i] != '_' && (i == 0 || s[i - 1] == '_')
}

/// What the character at position `i` contributes to the PascalCase form:
/// nothing for an underscore, its uppercase mapping where it starts a
/// segment, itself otherwise.
pub open spec fn pascal_piece(s: Seq<char>, i: int) -> Seq<char> {
    if s[i] == '_' {
        Seq::empty()
    } else if starts_segment(s, i) {
        uppercase(s[i])
    } else {
        seq![s[i]]
    }
}

/// The contributions of the first `n` characters of `s`, concatenated.
pub open spec fn pascal_prefix(s: Seq<char>, n: nat) -> Seq<char>
    decreases n,
{
    if n == 0 {
        Seq::empty()
    } else {
        pascal_prefix(s, (n - 1) as nat) + pascal_piece(s, n - 1)
    }
}

/// The PascalCase form of a name: the name is split at underscores, the
/// first character of each segment is replaced by its uppercase mapping, and
/// the segments are joined.
pub open spec fn pascal_case(s: Seq<char>) -> Seq<char> {
    pascal_prefix(s, s.len())
}

/// Converts a name to PascalCase.
pub fn to_pascal_case(s: &str) -> (r: String)
    ensures
        r@ == pascal_case(s@),
{
    let mut out = String::new();
    let mut at_start = true;
    for c in it: s.chars()
        invariant
            it.seq() == s@,
            out@ == pascal_prefix(s@, it.index() as nat),
            at_start == (it.index() == 0 || s@[it.index() - 1] == '_'),
    {
        if c == '_' {
            at_start = true;
        } else if at_start {
            let up = char_to_uppercase(c);
            let ghost before = out@;
            let mut j: usize = 0;
            while j < up.len()
                invariant
                    j <= up.len(),
                    out@ == before + up@.subrange(0, j as int),
                decreases up.len() - j,
            {
                out.push(up[j]);
                proof {
                    assert(up@.subrange(0, j + 1) == up@.subrange(0, j as int).push(up@[j as int]));
                }
                j = j + 1;
            }
            proof {
                assert(up@.subrange(0, up@.len() as int) == up@);
            }
            at_start = false;
        } else {
            out.push(c);
            at_start = false;
        }
    }
    out
}

/// The names of the types that are generated for one function.
#[derive(Debug, PartialEq, Eq)]
pub struct GeneratedNames {
    /// The marker type, the tool's handle.
    pub marker_type: String,
    /// The type that carries the arguments.
    pub args_type: String,
    /// The type of the normalized failure.
    pub error_type: String,
}

/// The mathematical value of [`GeneratedNames`].
pub ghost struct GeneratedNamesModel {
    pub marker_type: Seq<char>,
    pub args_type: Seq<char>,
    pub error_type: Seq<char>,
}

impl View for GeneratedNames {
    type V = GeneratedNamesModel;

    open spec fn view(&self) -> GeneratedNamesModel {
        GeneratedNamesModel {
            marker_type: self.marker_type@,
            args_type: self.args_type@,
            error_type: self.error_type@,
        }
    }
}

/// The names that belong to a function name: its PascalCase form, and that
/// form followed by `Args` and by `ToolError`.
pub open spec fn names_for(name: Seq<char>) -> GeneratedNamesModel {
    GeneratedNamesModel {
        marker_type: pascal_case(name),
        args_type: pascal_case(name) + "Args"@,
        error_type: pascal_case(name) + "ToolError"@,
    }
}

/// Derives the names of the generated types from the function's name.
pub fn derive_names(name: &str) -> (r: GeneratedNames)
    ensures
        r@ == names_for(name@),
{
    let marker_type = to_pascal_case(name);
    let args_type = marker_type.clone().concat("Args");
    let error_type = marker_type.clone().concat("ToolError");
    GeneratedNames { marker_type, args_type, error_type }
}

/// Whether every character of `s` is ASCII.
pub open spec fn is_ascii_name(s: Seq<char>) -> bool {
    forall|i: int| 0 <= i < s.len() ==> is_ascii_char(#[trigger] s[i])
}

/// Whether `s` holds no underscore.
pub open spec fn has_no_underscore(s: Seq<char>) -> bool {
    forall|i: int| 0 <= i < s.len() ==> #[trigger] s[i] != '_'
}

/// What the first `n` characters of an ASCII name contribute is ASCII,
/// holds no underscore, and starts with a character that is its own
/// uppercase form; it is empty only where all of them are underscores.
proof fn lemma_prefix_shape(s: Seq<char>, n: nat)
    requires
        is_ascii_name(s),
        n <= s.len(),
    ensures
        is_ascii_name(pascal_prefix(s, n)),
        has_no_underscore(pascal_prefix(s, n)),
        pascal_prefix(s, n).len() > 0 ==> ascii_upper(pascal_prefix(s, n)[0]) == pascal_prefix(
            s,
            n,
        )[0],
        pascal_prefix(s, n).len() == 0 ==> forall|i: int| 0 <= i < n ==> s[i] == '_',
    decreases n,
{
    if n > 0 {
        lemma_prefix_shape(s, (n - 1) as nat);
        let before = pascal_prefix(s, (n - 1) as nat);
        let c = s[n - 1];
        assert(is_ascii_char(c));
        if c != '_' && before.len() == 0 {
            assert(starts_segment(s, n - 1));
        }
    }
}

/// The first `n` characters of a name without underscores contribute
/// themselves, with the first character replaced by its uppercase mapping.
proof fn lemma_prefix_of_segment(t: Seq<char>, n: nat)
    requires
        has_no_underscore(t),
        0 < n <= t.len(),
    ensures
        pascal_prefix(t, n) == uppercase(t[0]) + t.subrange(1, n as int),
    decreases n,
{
    if n == 1 {
        assert(pascal_prefix(t, 0) =~= Seq::empty());
        assert(pascal_prefix(t, 1) =~= uppercase(t[0]) + t.subrange(1, 1));
    } else {
        lemma_prefix_of_segment(t, (n - 1) as nat);
        assert(!starts_segment(t, n - 1));
        assert(pascal_prefix(t, n) =~= uppercase(t[0]) + t.subrange(1, n as int));
    }
}

/// A segment, that is a name without underscores, becomes itself with the
/// first character replaced by its uppercase mapping.
pub proof fn lemma_pascal_case_of_segment(segment: Seq<char>)
    requires
        has_no_underscore(segment),
        segment.len() > 0,
    ensures
        pascal_case(segment) == uppercase(segment[0]) + segment.skip(1),
{
    lemma_prefix_of_segment(segment, segment.len());
    assert(segment.subrange(1, segment.len() as int) =~= segment.skip(1));
}

/// What the characters of `front`, and `n` more, contribute to the form
/// of `front`, an underscore and `back`.
proof fn lemma_prefix_across_underscore(front: Seq<char>, back: Seq<char>, n: nat)
    requires
        n <= back.len(),
    ensures
        pascal_prefix(front + seq!['_'] + back, front.len() + 1 + n) == pascal_case(front)
            + pascal_prefix(back, n),
    decreases n,
{
    let whole = front + seq!['_'] + back;
    if n == 0 {
        lemma_prefix_of_front(front, seq!['_'] + back, front.len());
        assert(whole =~= front + (seq!['_'] + back));
        assert(pascal_piece(whole, front.len() as int) =~= Seq::<char>::empty());
        assert(pascal_prefix(whole, front.len() + 1) =~= pascal_case(front) + pascal_prefix(
            back,
            0,
        ));
    } else {
        lemma_prefix_across_underscore(front, back, (n - 1) as nat);
        let i: int = (front.len() + n) as int;
        assert(whole[i] == back[n - 1]);
        assert(whole[i - 1] == if n == 1 {
            '_'
        } else {
            back[n - 2]
        });
        assert(pascal_piece(whole, i) == pascal_piece(back, n - 1));
        assert(pascal_prefix(whole, front.len() + 1 + n) =~= pascal_case(front) + pascal_prefix(
            back,
            n,
        ));
    }
}

/// What the first `n` characters of `front` contribute does not depend on
/// what follows `front`.
proof fn lemma_prefix_of_front(front: Seq<char>, rest: Seq<char>, n: nat)
    requires
        n <= front.len(),
    ensures
        pascal_prefix(front + rest, n) == pascal_prefix(front, n),
    decreases n,
{
    if n > 0 {
        lemma_prefix_of_front(front, rest, (n - 1) as nat);
        assert(pascal_piece(front + rest, n - 1) == pascal_piece(front, n - 1));
    }
}

/// The form of two names joined by an underscore is the form of the first
/// followed by the form of the second: the name is split at underscores,
/// and the segments are converted one by one.
pub proof fn lemma_pascal_case_splits(front: Seq<char>, back: Seq<char>)
    ensures
        pascal_case(front + seq!['_'] + back) == pascal_case(front) + pascal_case(back),
{
    lemma_prefix_across_underscore(front, back, back.len());
}

/// The PascalCase form of an ASCII name is its own PascalCase form:
/// deriving again from what was derived changes nothing.
pub proof fn lemma_pascal_case_idempotent(name: Seq<char>)
    requires
        is_ascii_name(name),
    ensures
        pascal_case(pascal_case(name)) == pascal_case(name),
{
    let t = pascal_case(name);
    lemma_prefix_shape(name, name.len());
    if t.len() > 0 {
        lemma_pascal_case_of_segment(t);
        assert(seq![ascii_upper(t[0])] + t.skip(1) =~= t);
    }
}

/// The PascalCase form of an ASCII name holds no underscore, so the names
/// derived from it are single segments.
pub proof fn lemma_pascal_case_has_no_underscore(name: Seq<char>)
    requires
        is_ascii_name(name),
    ensures
        has_no_underscore(pascal_case(name)),
        is_ascii_name(pascal_case(name)),
{
    lemma_prefix_shape(name, name.len());
}

} // verus!
