//! Decimal digit strings and an exact decimal number type.
//!
//! Measurements carry fractional values (round-trip times in milliseconds,
//! a packet-loss fraction). They are kept exact, as written in the tool
//! output, instead of being rounded through a binary float.

use vstd::prelude::*;
use vstd::string::StrSliceExecFns;
use vstd::string::StringExecFns;

verus! {

/// Whether `c` is a decimal digit.
pub open spec fn is_digit(c: char) -> bool {
    48 <= c as u32 && c as u32 <= 57
}

/// The numeric value of a digit character.
pub open spec fn digit_val(c: char) -> nat {
    (c as u32 - 48) as nat
}

/// The digit character for a value below ten.
pub open spec fn digit_char(d: nat) -> char {
    ((d + 48) as u32) as char
}

/// Whether every character of `s` is a decimal digit.
pub open spec fn all_digits(s: Seq<char>) -> bool {
    forall|i: int| 0 <= i < s.len() ==> is_digit(s[i])
}

/// The number denoted by a digit string, most significant digit first.
pub open spec fn digits_value(s: Seq<char>) -> nat
    decreases s.len(),
{
    if s.len() == 0 {
        0
    } else {
        digits_value(s.drop_last()) * 10 + digit_val(s.last())
    }
}

/// A prefix of a digit string denotes no more than the whole string.
proof fn lemma_digits_value_prefix_le(s: Seq<char>, k: int)
    requires
        0 <= k <= s.len(),
    ensures
        digits_value(s.take(k)) <= digits_value(s),
    decreases s.len(),
{
    if k < s.len() {
        assert(s.drop_last().take(k) =~= s.take(k));
        lemma_digits_value_prefix_le(s.drop_last(), k);
    } else {
        assert(s.take(k) =~= s);
    }
}

/// Parses the digit characters `s[from..to]` as a `u64`, most significant
/// digit first; `None` when the denoted number does not fit.
pub fn parse_u64_digits(s: &Vec<char>, from: usize, to: usize) -> (r: Option<u64>)
    requires
        from <= to <= s.len(),
        forall|i: int| from <= i < to ==> is_digit(s@[i]),
    ensures
        match r {
            Some(v) => v == digits_value(s@.subrange(from as int, to as int)),
            None => digits_value(s@.subrange(from as int, to as int)) > u64::MAX,
        },
{
    let mut i: usize = from;
    let mut acc: u64 = 0;
    while i < to
        invariant
            from <= i <= to <= s.len(),
            forall|j: int| from <= j < to ==> is_digit(s@[j]),
            acc == digits_value(s@.subrange(from as int, i as int)),
        decreases to - i,
    {
        let c = s[i];
        let d: u64 = (c as u32 as u64) - 48;
        proof {
            assert(s@.subrange(from as int, i + 1).drop_last() =~= s@.subrange(
                from as int,
                i as int,
            ));
            assert(s@.subrange(from as int, i + 1).last() == s@[i as int]);
        }
        if acc > 1844674407370955161 || (acc == 1844674407370955161 && d > 5) {
            proof {
                lemma_digits_value_prefix_le(
                    s@.subrange(from as int, to as int),
                    i + 1 - from,
                );
                assert(s@.subrange(from as int, to as int).take(i + 1 - from) =~= s@.subrange(
                    from as int,
                    i + 1,
                ));
            }
            return None;
        }
        acc = acc * 10 + d;
        i = i + 1;
    }
    proof {
        assert(s@.subrange(from as int, to as int) =~= s@.subrange(from as int, i as int));
    }
    Some(acc)
}

/// The decimal rendering of a number, most significant digit first and
/// without leading zeros.
pub open spec fn u64_dec_str(n: nat) -> Seq<char>
    decreases n,
{
    if n < 10 {
        seq![digit_char(n)]
    } else {
        u64_dec_str(n / 10) + seq![digit_char(n % 10)]
    }
}

/// The single-character string for a digit value.
fn digit_str(d: u64) -> (r: &'static str)
    requires
        d < 10,
    ensures
        r@ =~= seq![digit_char(d as nat)],
{
    proof {
        reveal_strlit("0");
        reveal_strlit("1");
        reveal_strlit("2");
        reveal_strlit("3");
        reveal_strlit("4");
        reveal_strlit("5");
        reveal_strlit("6");
        reveal_strlit("7");
        reveal_strlit("8");
        reveal_strlit("9");
    }
    if d == 0 {
        "0"
    } else if d == 1 {
        "1"
    } else if d == 2 {
        "2"
    } else if d == 3 {
        "3"
    } else if d == 4 {
        "4"
    } else if d == 5 {
        "5"
    } else if d == 6 {
        "6"
    } else if d == 7 {
        "7"
    } else if d == 8 {
        "8"
    } else {
        "9"
    }
}

/// Renders `n` in decimal.
pub fn u64_to_string(n: u64) -> (s: String)
    ensures
        s@ == u64_dec_str(n as nat),
    decreases n,
{
    if n < 10 {
        digit_str(n).to_owned()
    } else {
        proof {
            assert(n as nat / 10 < n as nat) by (nonlinear_arith)
                requires
                    n >= 10,
            ;
        }
        let mut s = u64_to_string(n / 10);
        s.append(digit_str(n % 10));
        s
    }
}

/// The rendering of a boolean.
pub open spec fn bool_str(b: bool) -> Seq<char> {
    if b {
        "true"@
    } else {
        "false"@
    }
}

/// Renders a boolean as `true` or `false`.
pub fn bool_to_string(b: bool) -> (s: String)
    ensures
        s@ == bool_str(b),
{
    if b {
        "true".to_owned()
    } else {
        "false".to_owned()
    }
}

/// An exact decimal number: `mantissa / 10^scale`.
#[derive(Clone, Copy, Debug, PartialEq, Eq, Structural)]
pub struct Decimal {
    pub mantissa: u64,
    pub scale: u32,
}

impl Decimal {
    pub fn new(mantissa: u64, scale: u32) -> (r: Decimal)
        ensures
            r == (Decimal { mantissa, scale }),
    {
        Decimal { mantissa, scale }
    }
}

/// The first position at or after `i` holding `c`, or the length of `s`.
pub open spec fn find_char(s: Seq<char>, c: char, i: int) -> int
    decreases s.len() - i,
{
    if i < 0 || i >= s.len() {
        s.len() as int
    } else if s[i] == c {
        i
    } else {
        find_char(s, c, i + 1)
    }
}

/// The number denoted by a decimal-point literal: digits with at most one
/// `.`, at least one digit in all, small enough for the mantissa to fit a
/// `u64`. Anything else denotes no number.
pub open spec fn dec_of(s: Seq<char>) -> Option<Decimal> {
    let d = find_char(s, '.', 0);
    if d == s.len() {
        if s.len() >= 1 && all_digits(s) && digits_value(s) <= u64::MAX {
            Some(Decimal { mantissa: digits_value(s) as u64, scale: 0 })
        } else {
            None
        }
    } else {
        let int_part = s.take(d);
        let frac_part = s.skip(d + 1);
        if all_digits(int_part) && all_digits(frac_part) && int_part.len() + frac_part.len() >= 1
            && digits_value(int_part + frac_part) <= u64::MAX && frac_part.len() <= u32::MAX {
            Some(
                Decimal {
                    mantissa: digits_value(int_part + frac_part) as u64,
                    scale: frac_part.len() as u32,
                },
            )
        } else {
            None
        }
    }
}

/// Parses the characters `s[from..to]` as a decimal-point literal.
pub fn parse_decimal(s: &Vec<char>, from: usize, to: usize) -> (r: Option<Decimal>)
    requires
        from <= to <= s.len(),
    ensures
        r == dec_of(s@.subrange(from as int, to as int)),
{
    let ghost sub = s@.subrange(from as int, to as int);
    let mut i: usize = from;
    while i < to && s[i] != '.'
        invariant
            from <= i <= to <= s.len(),
            sub == s@.subrange(from as int, to as int),
            forall|j: int| from <= j < i ==> s@[j] != '.',
            find_char(sub, '.', 0) == find_char(sub, '.', i - from),
        decreases to - i,
    {
        proof {
            assert(sub[i - from] == s@[i as int]);
        }
        i = i + 1;
    }
    let dot: usize = i;
    if dot == to {
        proof {
            assert(find_char(sub, '.', (to - from) as int) == sub.len());
        }
        if to == from {
            return None;
        }
        let mut j: usize = from;
        while j < to
            invariant
                from <= j <= to <= s.len(),
                sub == s@.subrange(from as int, to as int),
                find_char(sub, '.', 0) == sub.len(),
                forall|k: int| from <= k < j ==> is_digit(s@[k]),
            decreases to - j,
        {
            let c = s[j];
            let u = c as u32;
            if u < 48 || u > 57 {
                proof {
                    assert(!is_digit(sub[j - from]));
                }
                return None;
            }
            j = j + 1;
        }
        proof {
            assert(forall|k: int| 0 <= k < sub.len() ==> sub[k] == s@[from + k]);
        }
        match parse_u64_digits(s, from, to) {
            Some(v) => Some(Decimal { mantissa: v, scale: 0 }),
            None => None,
        }
    } else {
        proof {
            assert(sub[dot - from] == '.');
            assert(find_char(sub, '.', (dot - from) as int) == dot - from);
        }
        let ghost int_part = sub.take(dot - from);
        let ghost frac_part = sub.skip(dot - from + 1);
        if to - dot - 1 > u32::MAX as usize {
            return None;
        }
        let mut digits: Vec<char> = Vec::new();
        let mut j: usize = from;
        while j < dot
            invariant
                from <= j <= dot < to <= s.len(),
                sub == s@.subrange(from as int, to as int),
                int_part == sub.take(dot - from),
                find_char(sub, '.', 0) == dot - from,
                forall|k: int| from <= k < j ==> is_digit(s@[k]),
                digits@ =~= int_part.take(j - from),
            decreases dot - j,
        {
            let c = s[j];
            let u = c as u32;
            if u < 48 || u > 57 {
                proof {
                    assert(!is_digit(int_part[j - from]));
                }
                return None;
            }
            digits.push(c);
            j = j + 1;
        }
        proof {
            assert(digits@ =~= int_part);
        }
        let ghost digits_after_int = digits@;
        let mut j: usize = dot + 1;
        while j < to
            invariant
                from <= dot < j,
                dot + 1 <= j <= to <= s.len(),
                sub == s@.subrange(from as int, to as int),
                int_part == sub.take(dot - from),
                frac_part == sub.skip(dot - from + 1),
                find_char(sub, '.', 0) == dot - from,
                forall|k: int| dot + 1 <= k < j ==> is_digit(s@[k]),
                digits@ =~= digits_after_int + frac_part.take(j - dot - 1),
                digits_after_int == int_part,
            decreases to - j,
        {
            let c = s[j];
            let u = c as u32;
            if u < 48 || u > 57 {
                proof {
                    assert(!is_digit(frac_part[j - dot - 1]));
                }
                return None;
            }
            digits.push(c);
            j = j + 1;
        }
        proof {
            assert(digits@ =~= int_part + frac_part);
        }
        if digits.len() == 0 {
            return None;
        }
        let frac_len: usize = to - dot - 1;
        match parse_u64_digits(&digits, 0, digits.len()) {
            Some(v) => {
                proof {
                    assert(digits@.subrange(0, digits@.len() as int) =~= digits@);
                }
                Some(Decimal { mantissa: v, scale: frac_len as u32 })
            },
            None => {
                proof {
                    assert(digits@.subrange(0, digits@.len() as int) =~= digits@);
                }
                None
            },
        }
    }
}

/// A run of `k` zero characters.
pub open spec fn zeros(k: nat) -> Seq<char>
    decreases k,
{
    if k == 0 {
        Seq::empty()
    } else {
        zeros((k - 1) as nat) + seq!['0']
    }
}

/// The rendering of a decimal number: the mantissa digits with the point
/// inserted `scale` places from the right, zero-padded when the mantissa
/// has no more than `scale` digits.
pub open spec fn dec_str(d: Decimal) -> Seq<char> {
    let ds = u64_dec_str(d.mantissa as nat);
    if d.scale == 0 {
        ds
    } else if (d.scale as int) < ds.len() {
        ds.take(ds.len() - d.scale) + seq!['.'] + ds.skip(ds.len() - d.scale)
    } else {
        seq!['0', '.'] + zeros((d.scale - ds.len()) as nat) + ds
    }
}

/// Renders a decimal number, e.g. `10.1` for a mantissa of `101` at
/// scale `1`.
pub fn decimal_to_string(d: &Decimal) -> (s: String)
    ensures
        s@ == dec_str(*d),
{
    let ds = u64_to_string(d.mantissa);
    if d.scale == 0 {
        ds
    } else {
        let n = ds.as_str().unicode_len();
        if (d.scale as usize) < n {
            let cut = n - d.scale as usize;
            let mut s = ds.as_str().substring_char(0, cut).to_owned();
            s.append(".");
            s.append(ds.as_str().substring_char(cut, n));
            proof {
                reveal_strlit(".");
            }
            s
        } else {
            let mut s = "0.".to_owned();
            proof {
                reveal_strlit("0.");
                reveal_strlit("0");
            }
            let pad: usize = d.scale as usize - n;
            let mut k: usize = 0;
            while k < pad
                invariant
                    k <= pad,
                    s@ =~= seq!['0', '.'] + zeros(k as nat),
                decreases pad - k,
            {
                s.append("0");
                proof {
                    reveal_strlit("0");
                }
                k = k + 1;
            }
            s.append(ds.as_str());
            proof {
                assert(s@ =~= seq!['0', '.'] + zeros(pad as nat) + ds@);
            }
            s
        }
    }
}

} // verus!
