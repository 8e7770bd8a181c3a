//! A small line-pattern matcher.
//!
//! A pattern is a sequence of tokens: a literal, a run of digits, or a run
//! of number characters (digits and the decimal point). A run token
//! matches the longest possible non-empty run; every run token in the
//! patterns of this crate is followed by a literal whose first character
//! lies outside the run's class, so the longest match is the only one, and
//! scanning for the leftmost start position finds every match an
//! unanchored search would.

use vstd::prelude::*;
use vstd::string::StrSliceExecFns;

use crate::num::is_digit;
use crate::text::copy_range;

verus! {

/// One token of a pattern.
#[derive(Clone, Copy, Debug)]
pub enum PatTok {
    /// Matches exactly this text.
    Lit(&'static str),
    /// Matches a longest non-empty run of decimal digits and captures it.
    Digits,
    /// Matches a longest non-empty run of digits and points and captures
    /// it.
    Number,
}

/// A pattern token as the specifications see it: literal text as a
/// character sequence.
#[verifier::ext_equal]
pub enum SpecTok {
    Lit(Seq<char>),
    Digits,
    Number,
}

impl View for PatTok {
    type V = SpecTok;

    open spec fn view(&self) -> SpecTok {
        match self {
            PatTok::Lit(l) => SpecTok::Lit(l@),
            PatTok::Digits => SpecTok::Digits,
            PatTok::Number => SpecTok::Number,
        }
    }
}

impl DeepView for PatTok {
    type V = SpecTok;

    open spec fn deep_view(&self) -> SpecTok {
        self.view()
    }
}

/// Whether `c` belongs to the character class of a run token.
pub open spec fn tok_class(t: SpecTok, c: char) -> bool {
    match t {
        SpecTok::Lit(_) => false,
        SpecTok::Digits => is_digit(c),
        SpecTok::Number => is_digit(c) || c == '.',
    }
}

/// The end of the run of class characters starting at `i`.
pub open spec fn run_end(s: Seq<char>, i: int, t: SpecTok) -> int
    decreases s.len() - i,
{
    if i < 0 || i >= s.len() || !tok_class(t, s[i]) {
        i
    } else {
        run_end(s, i + 1, t)
    }
}

/// The captures of the pattern `toks[ti..]` matched against `s` starting
/// at position `i`, or `None` when it does not match there.
pub open spec fn match_at(s: Seq<char>, i: int, toks: Seq<SpecTok>, ti: int) -> Option<
    Seq<Seq<char>>,
>
    decreases toks.len() - ti,
{
    if ti < 0 || ti >= toks.len() {
        Some(Seq::empty())
    } else {
        match toks[ti] {
            SpecTok::Lit(l) => {
                if 0 <= i && i + l.len() <= s.len() && s.subrange(i, i + l.len()) == l {
                    match_at(s, i + l.len(), toks, ti + 1)
                } else {
                    None
                }
            },
            t => {
                let e = run_end(s, i, t);
                if e <= i {
                    None
                } else {
                    match match_at(s, e, toks, ti + 1) {
                        Some(caps) => Some(seq![s.subrange(i, e)] + caps),
                        None => None,
                    }
                }
            },
        }
    }
}

/// The captures at the leftmost position at or after `i` where the whole
/// pattern matches.
pub open spec fn first_match_from(s: Seq<char>, toks: Seq<SpecTok>, i: int) -> Option<
    Seq<Seq<char>>,
>
    decreases s.len() - i,
{
    if i < 0 || i > s.len() {
        None
    } else {
        match match_at(s, i, toks, 0) {
            Some(caps) => Some(caps),
            None => {
                if i == s.len() {
                    None
                } else {
                    first_match_from(s, toks, i + 1)
                }
            },
        }
    }
}

/// The captures of the leftmost match of the pattern anywhere in `s`.
pub open spec fn pattern_captures(s: Seq<char>, toks: Seq<SpecTok>) -> Option<Seq<Seq<char>>> {
    first_match_from(s, toks, 0)
}

/// How many run tokens `toks[ti..]` holds: one capture comes from each.
pub open spec fn run_count(toks: Seq<SpecTok>, ti: int) -> nat
    decreases toks.len() - ti,
{
    if ti < 0 || ti >= toks.len() {
        0
    } else {
        (match toks[ti] {
            SpecTok::Lit(_) => 0nat,
            _ => 1nat,
        }) + run_count(toks, ti + 1)
    }
}

/// The `k`-th run token of `toks[ti..]`.
pub open spec fn nth_run_tok(toks: Seq<SpecTok>, ti: int, k: int) -> SpecTok
    decreases toks.len() - ti,
{
    if ti < 0 || ti >= toks.len() {
        SpecTok::Digits
    } else {
        match toks[ti] {
            SpecTok::Lit(_) => nth_run_tok(toks, ti + 1, k),
            _ => {
                if k == 0 {
                    toks[ti]
                } else {
                    nth_run_tok(toks, ti + 1, k - 1)
                }
            },
        }
    }
}

/// A class run stays within the text.
proof fn lemma_run_end_bounds(s: Seq<char>, i: int, t: SpecTok)
    requires
        0 <= i <= s.len(),
    ensures
        i <= run_end(s, i, t) <= s.len(),
    decreases s.len() - i,
{
    if i < s.len() && tok_class(t, s[i]) {
        lemma_run_end_bounds(s, i + 1, t);
    }
}

/// Every character of a class run lies in the class.
proof fn lemma_run_end_class(s: Seq<char>, i: int, t: SpecTok)
    ensures
        forall|j: int| i <= j < run_end(s, i, t) ==> tok_class(t, s[j]),
    decreases s.len() - i,
{
    if 0 <= i < s.len() && tok_class(t, s[i]) {
        lemma_run_end_class(s, i + 1, t);
    }
}

/// A successful match yields one capture per run token; each capture is a
/// non-empty run of its token's class.
proof fn lemma_match_at_captures(s: Seq<char>, i: int, toks: Seq<SpecTok>, ti: int)
    requires
        match_at(s, i, toks, ti) is Some,
    ensures
        ({
            let caps = match_at(s, i, toks, ti).unwrap();
            caps.len() == run_count(toks, ti) && forall|k: int|
                0 <= k < caps.len() ==> caps[k].len() >= 1 && (forall|j: int|
                    0 <= j < caps[k].len() ==> tok_class(nth_run_tok(toks, ti, k), caps[k][j]))
        }),
    decreases toks.len() - ti,
{
    if ti < 0 || ti >= toks.len() {
    } else {
        match toks[ti] {
            SpecTok::Lit(l) => {
                lemma_match_at_captures(s, i + l.len(), toks, ti + 1);
            },
            t => {
                let e = run_end(s, i, t);
                if i < 0 || i > s.len() {
                    assert(e == i);
                }
                lemma_run_end_bounds(s, i, t);
                lemma_match_at_captures(s, e, toks, ti + 1);
                lemma_run_end_class(s, i, t);
                let caps = match_at(s, i, toks, ti).unwrap();
                let rest = match_at(s, e, toks, ti + 1).unwrap();
                assert(i < e);
                assert(match_at(s, i, toks, ti) == Some(seq![s.subrange(i, e)] + rest));
                assert(caps =~~= seq![s.subrange(i, e)] + rest);
                assert forall|k: int| 0 <= k < caps.len() implies caps[k].len() >= 1 && (forall|
                    j: int,
                |
                    0 <= j < caps[k].len() ==> tok_class(nth_run_tok(toks, ti, k), caps[k][j])) by {
                    if k == 0 {
                        assert(caps[0] =~= s.subrange(i, e));
                        assert(nth_run_tok(toks, ti, 0) == t);
                        assert forall|j: int| 0 <= j < caps[0].len() implies tok_class(
                            t,
                            caps[0][j],
                        ) by {
                            assert(caps[0][j] == s[i + j]);
                            assert(i <= i + j < e);
                            assert(tok_class(t, s[i + j]));
                        }
                    } else {
                        assert(caps[k] == rest[k - 1]);
                        assert(nth_run_tok(toks, ti, k) == nth_run_tok(toks, ti + 1, k - 1));
                    }
                }
            },
        }
    }
}

/// The capture properties, lifted to the leftmost match anywhere in `s`.
pub proof fn lemma_pattern_captures(s: Seq<char>, toks: Seq<SpecTok>, i: int)
    requires
        first_match_from(s, toks, i) is Some,
    ensures
        ({
            let caps = first_match_from(s, toks, i).unwrap();
            caps.len() == run_count(toks, 0) && forall|k: int|
                0 <= k < caps.len() ==> caps[k].len() >= 1 && (forall|j: int|
                    0 <= j < caps[k].len() ==> tok_class(nth_run_tok(toks, 0, k), caps[k][j]))
        }),
    decreases s.len() - i,
{
    if i < 0 || i > s.len() {
    } else {
        match match_at(s, i, toks, 0) {
            Some(caps) => {
                lemma_match_at_captures(s, i, toks, 0);
            },
            None => {
                if i < s.len() {
                    lemma_pattern_captures(s, toks, i + 1);
                }
            },
        }
    }
}

/// Whether `c` belongs to the character class of `t`.
fn in_class(t: PatTok, c: char) -> (r: bool)
    ensures
        r == tok_class(t@, c),
{
    match t {
        PatTok::Lit(_) => false,
        PatTok::Digits => 48 <= c as u32 && c as u32 <= 57,
        PatTok::Number => (48 <= c as u32 && c as u32 <= 57) || c == '.',
    }
}

/// The end of the class run starting at `i`.
fn run_end_exec(s: &Vec<char>, i: usize, t: PatTok) -> (r: usize)
    requires
        i <= s.len(),
    ensures
        r == run_end(s@, i as int, t@),
        i <= r <= s.len(),
{
    let mut j: usize = i;
    while j < s.len() && in_class(t, s[j])
        invariant
            i <= j <= s.len(),
            run_end(s@, i as int, t@) == run_end(s@, j as int, t@),
        decreases s.len() - j,
    {
        j = j + 1;
    }
    j
}

/// Whether the text of `l` stands at position `i` of `s`.
fn lit_matches(s: &Vec<char>, i: usize, l: &str) -> (r: bool)
    requires
        i <= s.len(),
    ensures
        r == (i + l@.len() <= s@.len() && s@.subrange(i as int, i + l@.len()) == l@),
{
    let n = l.unicode_len();
    if n > s.len() - i {
        return false;
    }
    let mut j: usize = 0;
    while j < n
        invariant
            j <= n == l@.len(),
            i + n <= s.len(),
            forall|k: int| 0 <= k < j ==> s@[i + k] == l@[k],
        decreases n - j,
    {
        if s[i + j] != l.get_char(j) {
            proof {
                assert(s@.subrange(i as int, i + l@.len())[j as int] != l@[j as int]);
            }
            return false;
        }
        j = j + 1;
    }
    proof {
        assert(s@.subrange(i as int, i + l@.len()) =~= l@);
    }
    true
}

/// Matches `toks[ti..]` against `s` at position `i` and returns the
/// captured runs.
fn match_at_exec(s: &Vec<char>, i: usize, toks: &Vec<PatTok>, ti: usize) -> (r: Option<
    Vec<Vec<char>>,
>)
    requires
        i <= s.len(),
        ti <= toks.len(),
    ensures
        (r is Some) == (match_at(s@, i as int, toks.deep_view(), ti as int) is Some),
        r matches Some(v) ==> match_at(s@, i as int, toks.deep_view(), ti as int) == Some(
            v.deep_view(),
        ),
    decreases toks.len() - ti,
{
    if ti == toks.len() {
        let caps: Vec<Vec<char>> = Vec::new();
        proof {
            assert(caps.deep_view() =~~= Seq::<Seq<char>>::empty());
        }
        return Some(caps);
    }
    match toks[ti] {
        PatTok::Lit(l) => {
            if lit_matches(s, i, l) {
                match_at_exec(s, i + l.unicode_len(), toks, ti + 1)
            } else {
                None
            }
        },
        t => {
            let e = run_end_exec(s, i, t);
            if e == i {
                None
            } else {
                match match_at_exec(s, e, toks, ti + 1) {
                    Some(mut rest) => {
                        let cap = copy_range(s, i, e);
                        let ghost rest_dv = rest.deep_view();
                        rest.insert(0, cap);
                        proof {
                            assert(rest.deep_view() =~~= seq![cap@] + rest_dv);
                        }
                        Some(rest)
                    },
                    None => None,
                }
            }
        },
    }
}

/// Finds the leftmost match of the pattern in `s` and returns its
/// captured runs.
pub fn find_pattern(s: &Vec<char>, toks: &Vec<PatTok>) -> (r: Option<Vec<Vec<char>>>)
    ensures
        (r is Some) == (pattern_captures(s@, toks.deep_view()) is Some),
        r matches Some(v) ==> pattern_captures(s@, toks.deep_view()) == Some(v.deep_view()),
{
    let n = s.len();
    let mut i: usize = 0;
    while i < n
        invariant
            i <= n == s.len(),
            pattern_captures(s@, toks.deep_view()) == first_match_from(
                s@,
                toks.deep_view(),
                i as int,
            ),
        decreases n - i,
    {
        match match_at_exec(s, i, toks, 0) {
            Some(v) => {
                return Some(v);
            },
            None => {
            },
        }
        i = i + 1;
    }
    match match_at_exec(s, n, toks, 0) {
        Some(v) => Some(v),
        None => None,
    }
}

} // verus!
