//! Verified helpers for the character-level string work the library does:
//! case folding for identifier parsing, separator replacement for configured
//! paths, whitespace trimming for probe output, and plain equality.

use vstd::prelude::*;

verus! {

/// `String::push` appends one character; the standard library documents no
/// other effect.  `vstd` gives this method no specification of its own.
pub assume_specification[ String::push ](s: &mut String, c: char)
    ensures
        final(s)@ == old(s)@.push(c),
;

/// Lower-case image of a single character: the ASCII letters fold, every
/// other character is unchanged.
pub open spec fn lower_char(c: char) -> char {
    match c {
        'A' => 'a',
        'B' => 'b',
        'C' => 'c',
        'D' => 'd',
        'E' => 'e',
        'F' => 'f',
        'G' => 'g',
        'H' => 'h',
        'I' => 'i',
        'J' => 'j',
        'K' => 'k',
        'L' => 'l',
        'M' => 'm',
        'N' => 'n',
        'O' => 'o',
        'P' => 'p',
        'Q' => 'q',
        'R' => 'r',
        'S' => 's',
        'T' => 't',
        'U' => 'u',
        'V' => 'v',
        'W' => 'w',
        'X' => 'x',
        'Y' => 'y',
        'Z' => 'z',
        _ => c,
    }
}

/// Pointwise lower-case image of a character sequence.
pub open spec fn lower_chars(s: Seq<char>) -> Seq<char> {
    s.map_values(|c: char| lower_char(c))
}

fn lower_char_exec(c: char) -> (r: char)
    ensures
        r == lower_char(c),
{
    match c {
        'A' => 'a',
        'B' => 'b',
        'C' => 'c',
        'D' => 'd',
        'E' => 'e',
        'F' => 'f',
        'G' => 'g',
        'H' => 'h',
        'I' => 'i',
        'J' => 'j',
        'K' => 'k',
        'L' => 'l',
        'M' => 'm',
        'N' => 'n',
        'O' => 'o',
        'P' => 'p',
        'Q' => 'q',
        'R' => 'r',
        'S' => 's',
        'T' => 't',
        'U' => 'u',
        'V' => 'v',
        'W' => 'w',
        'X' => 'x',
        'Y' => 'y',
        'Z' => 'z',
        _ => c,
    }
}

/// The string with its ASCII letters folded to lower case.
pub fn ascii_lowercase(s: &str) -> (r: String)
    ensures
        r@ == lower_chars(s@),
{
    let mut out = String::new();
    for c in it: s.chars()
        invariant
            it.seq() == s@,
            out@ == lower_chars(s@.take(it.index() as int)),
    {
        out.push(lower_char_exec(c));
        proof {
            assert(lower_chars(s@.take(it.index() + 1)) =~= lower_chars(
                s@.take(it.index() as int),
            ).push(lower_char(s@[it.index() as int])));
        }
    }
    proof {
        assert(s@.take(s@.len() as int) =~= s@);
    }
    out
}

/// String equality, decided through the views.
pub fn str_eq(a: &str, b: &str) -> (r: bool)
    ensures
        r == (a@ == b@),
{
    let sa: String = a.to_owned();
    let sb: String = b.to_owned();
    sa == sb
}

/// Path-separator image of a single character: a backslash becomes a forward
/// slash, every other character is unchanged.
pub open spec fn separator_char(c: char) -> char {
    if c == '\\' {
        '/'
    } else {
        c
    }
}

/// Pointwise path-separator normalization of a character sequence.
pub open spec fn normalize_separators(s: Seq<char>) -> Seq<char> {
    s.map_values(|c: char| separator_char(c))
}

/// Replaces every backslash with a forward slash.
pub fn replace_backslashes(s: &str) -> (r: String)
    ensures
        r@ == normalize_separators(s@),
{
    let mut out = String::new();
    for c in it: s.chars()
        invariant
            it.seq() == s@,
            out@ == normalize_separators(s@.take(it.index() as int)),
    {
        if c == '\\' {
            out.push('/');
        } else {
            out.push(c);
        }
        proof {
            assert(normalize_separators(s@.take(it.index() + 1)) =~= normalize_separators(
                s@.take(it.index() as int),
            ).push(separator_char(s@[it.index() as int])));
        }
    }
    proof {
        assert(s@.take(s@.len() as int) =~= s@);
    }
    out
}

/// The parts joined into one sequence with the separator between each pair.
/// Joining no parts gives the empty sequence; joining one part gives that
/// part.
pub open spec fn join_spec(parts: Seq<Seq<char>>, sep: char) -> Seq<char>
    decreases parts.len(),
{
    if parts.len() == 0 {
        Seq::empty()
    } else if parts.len() == 1 {
        parts[0]
    } else {
        parts[0] + seq![sep] + join_spec(parts.drop_first(), sep)
    }
}

/// Joining one more part appends a separator and the part (or is the part
/// itself where nothing was joined yet).
pub proof fn lemma_join_push(parts: Seq<Seq<char>>, p: Seq<char>, sep: char)
    ensures
        join_spec(parts.push(p), sep) == if parts.len() == 0 {
            p
        } else {
            join_spec(parts, sep) + seq![sep] + p
        },
    decreases parts.len(),
{
    if parts.len() == 0 {
        assert(parts.push(p)[0] == p);
    } else if parts.len() == 1 {
        assert(parts.push(p)[0] == parts[0]);
        assert(parts.push(p).drop_first() =~= seq![p]);
        assert(join_spec(seq![p], sep) == p);
    } else {
        lemma_join_push(parts.drop_first(), p, sep);
        assert(parts.push(p).drop_first() =~= parts.drop_first().push(p));
        assert(parts.push(p)[0] == parts[0]);
        assert((parts[0] + seq![sep] + (join_spec(parts.drop_first(), sep) + seq![sep] + p)) =~= (
        parts[0] + seq![sep] + join_spec(parts.drop_first(), sep) + seq![sep] + p));
    }
}

/// Splits a string at every occurrence of the separator.  The result always
/// holds at least one part, no part contains the separator, and joining the
/// parts with the separator gives the input back.
pub fn split_on(s: &str, sep: char) -> (r: Vec<String>)
    ensures
        r@.len() >= 1,
        join_spec(r.deep_view(), sep) == s@,
        forall|i: int| 0 <= i < r@.len() ==> !(#[trigger] r.deep_view()[i]).contains(sep),
{
    let mut parts: Vec<String> = Vec::new();
    let mut cur = String::new();
    proof {
        assert(parts.deep_view().push(cur@) =~= seq![cur@]);
        assert(s@.take(0) =~= Seq::<char>::empty());
    }
    for c in it: s.chars()
        invariant
            it.seq() == s@,
            join_spec(parts.deep_view().push(cur@), sep) == s@.take(it.index() as int),
            !cur@.contains(sep),
            forall|i: int|
                0 <= i < parts@.len() ==> !(#[trigger] parts.deep_view()[i]).contains(sep),
    {
        proof {
            assert(s@.take(it.index() + 1) =~= s@.take(it.index() as int).push(
                s@[it.index() as int],
            ));
            lemma_join_push(parts.deep_view(), cur@, sep);
        }
        if c == sep {
            let ghost old_parts = parts.deep_view();
            let ghost old_cur = cur@;
            parts.push(cur);
            cur = String::new();
            proof {
                assert(parts.deep_view() =~= old_parts.push(old_cur));
                lemma_join_push(old_parts.push(old_cur), cur@, sep);
                assert(join_spec(old_parts.push(old_cur), sep) + seq![sep] + Seq::<
                    char,
                >::empty() =~= join_spec(old_parts.push(old_cur), sep).push(sep));
            }
        } else {
            let ghost old_cur = cur@;
            cur.push(c);
            proof {
                lemma_join_push(parts.deep_view(), cur@, sep);
                if parts.deep_view().len() == 0 {
                } else {
                    assert((join_spec(parts.deep_view(), sep) + seq![sep] + old_cur.push(
                        s@[it.index() as int],
                    )) =~= (join_spec(parts.deep_view(), sep) + seq![sep] + old_cur).push(
                        s@[it.index() as int],
                    ));
                }
            }
        }
    }
    proof {
        assert(s@.take(s@.len() as int) =~= s@);
    }
    let ghost old_parts = parts.deep_view();
    let ghost old_cur = cur@;
    parts.push(cur);
    proof {
        assert(parts.deep_view() =~= old_parts.push(old_cur));
    }
    parts
}

/// Joins the parts into one string with the separator between each pair.
pub fn join_with(parts: &Vec<String>, sep: char) -> (r: String)
    ensures
        r@ == join_spec(parts.deep_view(), sep),
{
    let mut out = String::new();
    let mut i: usize = 0;
    proof {
        assert(parts.deep_view().take(0) =~= Seq::<Seq<char>>::empty());
    }
    while i < parts.len()
        invariant
            0 <= i <= parts@.len(),
            out@ == join_spec(parts.deep_view().take(i as int), sep),
        decreases parts@.len() - i,
    {
        proof {
            assert(parts.deep_view().take(i + 1) =~= parts.deep_view().take(i as int).push(
                parts.deep_view()[i as int],
            ));
            lemma_join_push(parts.deep_view().take(i as int), parts.deep_view()[i as int], sep);
        }
        if i > 0 {
            out.push(sep);
            proof {
                assert(join_spec(parts.deep_view().take(i as int), sep).push(sep) =~= join_spec(
                    parts.deep_view().take(i as int),
                    sep,
                ) + seq![sep]);
            }
        }
        out.append(parts[i].as_str());
        i += 1;
    }
    proof {
        assert(parts.deep_view().take(parts@.len() as int) =~= parts.deep_view());
    }
    out
}

/// Whether a character counts as trimmable whitespace.
pub open spec fn is_space_char(c: char) -> bool {
    c == ' ' || c == '\t' || c == '\n' || c == '\r'
}

fn is_space(c: char) -> (r: bool)
    ensures
        r == is_space_char(c),
{
    c == ' ' || c == '\t' || c == '\n' || c == '\r'
}

/// The sequence with its leading whitespace removed.
pub open spec fn trim_left_spec(s: Seq<char>) -> Seq<char>
    decreases s.len(),
{
    if s.len() > 0 && is_space_char(s[0]) {
        trim_left_spec(s.drop_first())
    } else {
        s
    }
}

/// The sequence with its trailing whitespace removed.
pub open spec fn trim_right_spec(s: Seq<char>) -> Seq<char>
    decreases s.len(),
{
    if s.len() > 0 && is_space_char(s[s.len() - 1]) {
        trim_right_spec(s.drop_last())
    } else {
        s
    }
}

/// The sequence with both its leading and its trailing whitespace removed.
pub open spec fn trim_spec(s: Seq<char>) -> Seq<char> {
    trim_right_spec(trim_left_spec(s))
}

/// Removes leading and trailing whitespace.
pub fn trim_whitespace(s: &str) -> (r: String)
    ensures
        r@ == trim_spec(s@),
{
    let n = s.unicode_len();
    let mut from: usize = 0;
    proof {
        assert(s@.skip(0) =~= s@);
    }
    while from < n && is_space(s.get_char(from))
        invariant
            0 <= from <= n,
            n == s@.len(),
            trim_left_spec(s@) == trim_left_spec(s@.skip(from as int)),
        decreases n - from,
    {
        proof {
            assert(s@.skip(from as int).drop_first() =~= s@.skip(from + 1));
            assert(s@.skip(from as int)[0] == s@[from as int]);
        }
        from += 1;
    }
    proof {
        assert(trim_left_spec(s@.skip(from as int)) == s@.skip(from as int));
    }
    let mut to: usize = n;
    proof {
        assert(s@.subrange(from as int, n as int) =~= s@.skip(from as int));
    }
    while to > from && is_space(s.get_char(to - 1))
        invariant
            0 <= from <= to <= n,
            n == s@.len(),
            trim_right_spec(s@.skip(from as int)) == trim_right_spec(
                s@.subrange(from as int, to as int),
            ),
        decreases to,
    {
        proof {
            let cur = s@.subrange(from as int, to as int);
            assert(cur[cur.len() - 1] == s@[to - 1]);
            assert(cur.drop_last() =~= s@.subrange(from as int, to - 1));
        }
        to -= 1;
    }
    proof {
        let cur = s@.subrange(from as int, to as int);
        assert(trim_right_spec(cur) == cur);
    }
    s.substring_char(from, to).to_owned()
}

} // verus!
