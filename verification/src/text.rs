//! Splitting text into separated segments and into lines.

use vstd::prelude::*;
use vstd::string::StrSliceExecFns;

verus! {

/// Relies on String::push: it appends the given character to the end of
/// the string.
pub assume_specification[ String::push ](s: &mut String, c: char)
    ensures
        final (s)@ == old(s)@ + seq![c],
;

/// The segments of `s` between occurrences of `sep`. Splitting the empty
/// string gives one empty segment; `n` separators give `n + 1` segments.
pub open spec fn split_on(s: Seq<char>, sep: char) -> Seq<Seq<char>>
    decreases s.len(),
{
    if s.len() == 0 {
        seq![Seq::<char>::empty()]
    } else if s[0] == sep {
        seq![Seq::<char>::empty()] + split_on(s.skip(1), sep)
    } else {
        let rest = split_on(s.skip(1), sep);
        seq![seq![s[0]] + rest[0]] + rest.skip(1)
    }
}

/// Splitting always yields at least one segment.
pub proof fn lemma_split_on_len(s: Seq<char>, sep: char)
    ensures
        split_on(s, sep).len() >= 1,
    decreases s.len(),
{
    if s.len() > 0 {
        lemma_split_on_len(s.skip(1), sep);
    }
}

/// A separator-free prefix of length `k` sits at the front of the first
/// segment.
proof fn lemma_split_on_prefix(s: Seq<char>, sep: char, k: int)
    requires
        0 <= k <= s.len(),
        forall|j: int| 0 <= j < k ==> s[j] != sep,
    ensures
        split_on(s, sep) =~~= seq![s.take(k) + split_on(s.skip(k), sep)[0]] + split_on(
            s.skip(k),
            sep,
        ).skip(1),
    decreases k,
{
    lemma_split_on_len(s, sep);
    if k == 0 {
        assert(s.skip(0) =~= s);
        assert(split_on(s, sep) =~~= seq![split_on(s, sep)[0]] + split_on(s, sep).skip(1));
        assert(s.take(0) + split_on(s, sep)[0] =~= split_on(s, sep)[0]);
    } else {
        lemma_split_on_prefix(s.skip(1), sep, k - 1);
        assert(s.skip(1).skip(k - 1) =~= s.skip(k));
        let rest = split_on(s.skip(1), sep);
        assert(seq![s[0]] + rest[0] =~= s.take(k) + split_on(s.skip(k), sep)[0]) by {
            assert(rest[0] == s.skip(1).take(k - 1) + split_on(s.skip(k), sep)[0]);
            assert(seq![s[0]] + (s.skip(1).take(k - 1) + split_on(s.skip(k), sep)[0]) =~= s.take(
                k,
            ) + split_on(s.skip(k), sep)[0]);
        }
    }
}

/// A separator at position `k`, with none before it, closes the first
/// segment.
proof fn lemma_split_on_at_sep(s: Seq<char>, sep: char, k: int)
    requires
        0 <= k < s.len(),
        s[k] == sep,
        forall|j: int| 0 <= j < k ==> s[j] != sep,
    ensures
        split_on(s, sep) =~~= seq![s.take(k)] + split_on(s.skip(k + 1), sep),
    decreases k,
{
    lemma_split_on_prefix(s, sep, k);
    assert(s.skip(k)[0] == sep);
    assert(s.skip(k).skip(1) =~= s.skip(k + 1));
    assert(s.take(k) + split_on(s.skip(k), sep)[0] =~= s.take(k));
}

/// The characters of `text`, in order.
pub fn to_chars(text: &str) -> (v: Vec<char>)
    ensures
        v@ == text@,
{
    let n = text.unicode_len();
    let mut v: Vec<char> = Vec::new();
    let mut i: usize = 0;
    while i < n
        invariant
            i <= n == text@.len(),
            v@ =~= text@.take(i as int),
        decreases n - i,
    {
        v.push(text.get_char(i));
        i = i + 1;
    }
    proof {
        assert(v@ =~= text@);
    }
    v
}

/// The characters `v[a..b]`, in order.
pub fn copy_range(v: &Vec<char>, a: usize, b: usize) -> (r: Vec<char>)
    requires
        a <= b <= v.len(),
    ensures
        r@ == v@.subrange(a as int, b as int),
{
    let mut r: Vec<char> = Vec::new();
    let mut i: usize = a;
    while i < b
        invariant
            a <= i <= b <= v.len(),
            r@ =~= v@.subrange(a as int, i as int),
        decreases b - i,
    {
        r.push(v[i]);
        proof {
            assert(r@ =~= v@.subrange(a as int, i + 1));
        }
        i = i + 1;
    }
    r
}

/// Splits `v` into the segments between occurrences of `sep`.
pub fn split_chars(v: &Vec<char>, sep: char) -> (r: Vec<Vec<char>>)
    ensures
        r.deep_view() == split_on(v@, sep),
{
    let n = v.len();
    let mut out: Vec<Vec<char>> = Vec::new();
    let mut start: usize = 0;
    let mut i: usize = 0;
    proof {
        assert(v@.skip(0) =~= v@);
    }
    while i < n
        invariant
            start <= i <= n == v@.len(),
            forall|j: int| start <= j < i ==> v@[j] != sep,
            split_on(v@, sep) =~~= out.deep_view() + split_on(v@.skip(start as int), sep),
        decreases n - i,
    {
        if v[i] == sep {
            let seg = copy_range(v, start, i);
            proof {
                let rem = v@.skip(start as int);
                assert(forall|j: int| 0 <= j < i - start ==> rem[j] != sep);
                assert(rem[i - start] == sep);
                lemma_split_on_at_sep(rem, sep, i - start);
                assert(rem.take(i - start) =~= seg@);
                assert(rem.skip(i - start + 1) =~= v@.skip(i + 1));
            }
            out.push(seg);
            proof {
                assert(out.deep_view() =~~= out.deep_view().drop_last() + seq![seg@]);
            }
            start = i + 1;
        }
        i = i + 1;
    }
    let seg = copy_range(v, start, n);
    proof {
        let rem = v@.skip(start as int);
        lemma_split_on_prefix(rem, sep, rem.len() as int);
        assert(rem.skip(rem.len() as int) =~= Seq::<char>::empty());
        assert(rem.take(rem.len() as int) =~= rem);
        assert(rem + split_on(Seq::<char>::empty(), sep)[0] =~= seg@);
    }
    out.push(seg);
    proof {
        assert(out.deep_view() =~~= out.deep_view().drop_last() + seq![seg@]);
        assert(out.deep_view() =~~= split_on(v@, sep));
    }
    out
}

/// Splits `text` on commas. Every segment is kept, empty ones included.
pub fn parse_comma_list(text: &str) -> (r: Vec<String>)
    ensures
        r.deep_view() == split_on(text@, ','),
{
    let chars = to_chars(text);
    let parts = split_chars(&chars, ',');
    let mut out: Vec<String> = Vec::new();
    let mut i: usize = 0;
    while i < parts.len()
        invariant
            i <= parts.len(),
            out.deep_view() =~~= parts.deep_view().take(i as int),
        decreases parts.len() - i,
    {
        let mut seg = String::new();
        let part = &parts[i];
        let mut j: usize = 0;
        while j < part.len()
            invariant
                j <= part.len(),
                i < parts.len(),
                part == parts[i as int],
                seg@ =~= part@.take(j as int),
            decreases part.len() - j,
        {
            seg.push(part[j]);
            j = j + 1;
        }
        proof {
            assert(seg@ =~= parts.deep_view()[i as int]);
        }
        let ghost old_dv = out.deep_view();
        out.push(seg);
        proof {
            assert(out.deep_view() =~~= old_dv + seq![seg@]);
            assert(out.deep_view() =~~= parts.deep_view().take(i + 1));
        }
        i = i + 1;
    }
    proof {
        assert(parts.deep_view().take(parts@.len() as int) =~~= parts.deep_view());
    }
    out
}

/// The string holding the characters of `v`, in order.
pub fn chars_to_string(v: &Vec<char>) -> (s: String)
    ensures
        s@ == v@,
{
    let mut s = String::new();
    let mut i: usize = 0;
    while i < v.len()
        invariant
            i <= v.len(),
            s@ =~= v@.take(i as int),
        decreases v.len() - i,
    {
        s.push(v[i]);
        i = i + 1;
    }
    proof {
        assert(s@ =~= v@);
    }
    s
}

/// A line with a trailing carriage return loses it.
pub open spec fn strip_cr(l: Seq<char>) -> Seq<char> {
    if l.len() > 0 && l.last() == '\r' {
        l.drop_last()
    } else {
        l
    }
}

/// The lines of `s`: segments between newlines, a final newline closing
/// the last line rather than opening an empty one, and a carriage return
/// before each newline dropped.
pub open spec fn spec_lines(s: Seq<char>) -> Seq<Seq<char>> {
    if s.len() == 0 {
        Seq::empty()
    } else {
        let parts = split_on(s, '\n');
        let closed = if s.last() == '\n' {
            parts.drop_last()
        } else {
            parts
        };
        closed.map_values(|l: Seq<char>| strip_cr(l))
    }
}

/// Splits `v` into its lines.
pub fn lines_of(v: &Vec<char>) -> (r: Vec<Vec<char>>)
    ensures
        r.deep_view() == spec_lines(v@),
{
    if v.len() == 0 {
        let r: Vec<Vec<char>> = Vec::new();
        proof {
            assert(r.deep_view() =~~= spec_lines(v@));
        }
        return r;
    }
    let mut parts = split_chars(v, '\n');
    let ghost all_parts = parts.deep_view();
    if v[v.len() - 1] == '\n' {
        proof {
            lemma_split_on_len(v@, '\n');
        }
        parts.pop();
    }
    let ghost closed = parts.deep_view();
    let mut out: Vec<Vec<char>> = Vec::new();
    let mut i: usize = 0;
    while i < parts.len()
        invariant
            i <= parts.len(),
            closed == parts.deep_view(),
            out.deep_view() =~~= closed.take(i as int).map_values(|l: Seq<char>| strip_cr(l)),
        decreases parts.len() - i,
    {
        let part = &parts[i];
        let stripped: Vec<char> = if part.len() > 0 && part[part.len() - 1] == '\r' {
            copy_range(part, 0, part.len() - 1)
        } else {
            copy_range(part, 0, part.len())
        };
        proof {
            assert(part@.subrange(0, part@.len() as int) =~= part@);
            assert(part@.len() > 0 && part@.last() == '\r' ==> part@.subrange(
                0,
                part@.len() - 1,
            ) =~= part@.drop_last());
            assert(stripped@ == strip_cr(closed[i as int]));
        }
        out.push(stripped);
        proof {
            assert(out.deep_view() =~~= out.deep_view().drop_last() + seq![stripped@]);
            assert(closed.take(i + 1).map_values(|l: Seq<char>| strip_cr(l)) =~~= closed.take(
                i as int,
            ).map_values(|l: Seq<char>| strip_cr(l)) + seq![strip_cr(closed[i as int])]);
        }
        i = i + 1;
    }
    proof {
        assert(closed.take(closed.len() as int) =~~= closed);
        assert(out.deep_view() =~~= spec_lines(v@));
    }
    out
}

} // verus!
