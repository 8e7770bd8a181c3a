//! The ping command: argument construction and output parsing.
//!
//! The output of the platform ping command is scanned line by line for two
//! shapes: a packet-loss summary and a round-trip-time summary. Lines
//! matching neither are ignored; when a shape occurs on several lines the
//! last one counts. An output without any matching line parses as an
//! all-zero measurement, not as an error.

use vstd::prelude::*;

use crate::errors::ParseError;
use crate::num::digits_value;
use crate::num::dec_of;
use crate::num::u64_dec_str;
use crate::num::Decimal;
use crate::num::parse_decimal;
use crate::num::parse_u64_digits;
use crate::pattern::find_pattern;
use crate::pattern::lemma_pattern_captures;
use crate::pattern::nth_run_tok;
use crate::pattern::pattern_captures;
use crate::pattern::run_count;
use crate::pattern::PatTok;
use crate::pattern::SpecTok;
use crate::text::chars_to_string;
use crate::text::lines_of;
use crate::text::spec_lines;
use crate::text::to_chars;

verus! {

/// The flavour of ping command whose flags and output shape are expected.
/// Chosen once at startup; there is no runtime fallback between the two.
#[derive(Clone, Copy, Debug, PartialEq, Eq, Structural)]
pub enum Platform {
    Linux,
    Windows,
}

/// One parsed ping run against one host. The packet loss is a fraction of
/// one, exact; the round-trip times are milliseconds.
#[derive(Clone, Copy, Debug, PartialEq, Eq, Structural)]
pub struct PingOutput {
    pub packet_loss: Decimal,
    pub rtt_min: Decimal,
    pub rtt_avg: Decimal,
    pub rtt_max: Decimal,
}

/// The argument list of the ping command: count, payload size and
/// deadline flags, then the target. Linux takes the deadline in seconds,
/// Windows in milliseconds.
pub open spec fn ping_args(
    p: Platform,
    target: Seq<char>,
    bytes: nat,
    count: nat,
    timeout_ms: nat,
) -> Seq<Seq<char>> {
    match p {
        Platform::Linux => seq![
            "-c"@,
            u64_dec_str(count),
            "-s"@,
            u64_dec_str(bytes),
            "-w"@,
            u64_dec_str(timeout_ms / 1000),
            target,
        ],
        Platform::Windows => seq![
            "-n"@,
            u64_dec_str(count),
            "-l"@,
            u64_dec_str(bytes),
            "-w"@,
            u64_dec_str(timeout_ms),
            target,
        ],
    }
}

/// Builds the ping argument list for one target host.
pub fn build_ping_command(
    p: Platform,
    target: &str,
    bytes: usize,
    count: usize,
    timeout_ms: u64,
) -> (r: Vec<String>)
    ensures
        r.deep_view() == ping_args(p, target@, bytes as nat, count as nat, timeout_ms as nat),
{
    let mut r: Vec<String> = Vec::new();
    match p {
        Platform::Linux => {
            r.push("-c".to_owned());
            r.push(crate::num::u64_to_string(count as u64));
            r.push("-s".to_owned());
            r.push(crate::num::u64_to_string(bytes as u64));
            r.push("-w".to_owned());
            r.push(crate::num::u64_to_string(timeout_ms / 1000));
            r.push(target.to_owned());
        },
        Platform::Windows => {
            r.push("-n".to_owned());
            r.push(crate::num::u64_to_string(count as u64));
            r.push("-l".to_owned());
            r.push(crate::num::u64_to_string(bytes as u64));
            r.push("-w".to_owned());
            r.push(crate::num::u64_to_string(timeout_ms));
            r.push(target.to_owned());
        },
    }
    proof {
        assert(r.deep_view() =~~= ping_args(
            p,
            target@,
            bytes as nat,
            count as nat,
            timeout_ms as nat,
        ));
    }
    r
}

/// The packet-loss summary pattern, e.g. on Linux
/// `5 packets transmitted, 5 received, 0% packet loss, time 80ms`.
pub open spec fn loss_pattern(p: Platform) -> Seq<SpecTok> {
    match p {
        Platform::Linux => seq![
            SpecTok::Digits,
            SpecTok::Lit(" packets transmitted, "@),
            SpecTok::Digits,
            SpecTok::Lit(" received, "@),
            SpecTok::Digits,
            SpecTok::Lit("% packet loss, time "@),
            SpecTok::Digits,
            SpecTok::Lit("ms"@),
        ],
        Platform::Windows => seq![
            SpecTok::Lit("Packets: Sent = "@),
            SpecTok::Digits,
            SpecTok::Lit(", Received = "@),
            SpecTok::Digits,
            SpecTok::Lit(", Lost = "@),
            SpecTok::Digits,
            SpecTok::Lit(" ("@),
            SpecTok::Digits,
            SpecTok::Lit("% loss),"@),
        ],
    }
}

/// Which capture of the packet-loss pattern holds the loss percentage.
pub open spec fn loss_capture_index(p: Platform) -> int {
    match p {
        Platform::Linux => 2,
        Platform::Windows => 3,
    }
}

/// The round-trip-time summary pattern, e.g. on Linux
/// `rtt min/avg/max/mdev = 10.1/12.3/15.0/1.2 ms`. The three used captures
/// come in the written order of the platform's summary line.
pub open spec fn rtt_pattern(p: Platform) -> Seq<SpecTok> {
    match p {
        Platform::Linux => seq![
            SpecTok::Lit("rtt min/avg/max/mdev = "@),
            SpecTok::Number,
            SpecTok::Lit("/"@),
            SpecTok::Number,
            SpecTok::Lit("/"@),
            SpecTok::Number,
            SpecTok::Lit("/"@),
            SpecTok::Number,
            SpecTok::Lit(" ms"@),
        ],
        Platform::Windows => seq![
            SpecTok::Lit("Minimum = "@),
            SpecTok::Digits,
            SpecTok::Lit("ms, Maximum = "@),
            SpecTok::Digits,
            SpecTok::Lit("ms, Average = "@),
            SpecTok::Digits,
            SpecTok::Lit("ms"@),
        ],
    }
}

/// The captures of the last line where the packet-loss pattern matches.
pub open spec fn last_loss_captures(lines: Seq<Seq<char>>, p: Platform) -> Option<Seq<Seq<char>>>
    decreases lines.len(),
{
    if lines.len() == 0 {
        None
    } else {
        match pattern_captures(lines.last(), loss_pattern(p)) {
            Some(caps) => Some(caps),
            None => last_loss_captures(lines.drop_last(), p),
        }
    }
}

/// The captures of the last line where the round-trip pattern matches and
/// the packet-loss pattern does not: a line matching the packet-loss
/// pattern is consumed by it alone.
pub open spec fn last_rtt_captures(lines: Seq<Seq<char>>, p: Platform) -> Option<Seq<Seq<char>>>
    decreases lines.len(),
{
    if lines.len() == 0 {
        None
    } else {
        if pattern_captures(lines.last(), loss_pattern(p)) is None && pattern_captures(
            lines.last(),
            rtt_pattern(p),
        ) is Some {
            pattern_captures(lines.last(), rtt_pattern(p))
        } else {
            last_rtt_captures(lines.drop_last(), p)
        }
    }
}

/// The loss pattern has four captures, and the percentage capture is a
/// digit run.
proof fn lemma_loss_pattern_arity(p: Platform)
    ensures
        run_count(loss_pattern(p), 0) == 4,
        0 <= loss_capture_index(p) < 4,
        nth_run_tok(loss_pattern(p), 0, loss_capture_index(p)) == SpecTok::Digits,
{
    let t = loss_pattern(p);
    match p {
        Platform::Linux => {
            assert(run_count(t, 8) == 0);
            assert(run_count(t, 7) == 0);
            assert(run_count(t, 6) == 1);
            assert(run_count(t, 5) == 1);
            assert(run_count(t, 4) == 2);
            assert(run_count(t, 3) == 2);
            assert(run_count(t, 2) == 3);
            assert(run_count(t, 1) == 3);
            assert(run_count(t, 0) == 4);
            assert(nth_run_tok(t, 4, 0) == t[4]);
            assert(nth_run_tok(t, 3, 0) == t[4]);
            assert(nth_run_tok(t, 2, 1) == t[4]);
            assert(nth_run_tok(t, 1, 1) == t[4]);
            assert(nth_run_tok(t, 0, 2) == t[4]);
        },
        Platform::Windows => {
            assert(run_count(t, 9) == 0);
            assert(run_count(t, 8) == 0);
            assert(run_count(t, 7) == 1);
            assert(run_count(t, 6) == 1);
            assert(run_count(t, 5) == 2);
            assert(run_count(t, 4) == 2);
            assert(run_count(t, 3) == 3);
            assert(run_count(t, 2) == 3);
            assert(run_count(t, 1) == 4);
            assert(run_count(t, 0) == 4);
            assert(nth_run_tok(t, 7, 0) == t[7]);
            assert(nth_run_tok(t, 6, 0) == t[7]);
            assert(nth_run_tok(t, 5, 1) == t[7]);
            assert(nth_run_tok(t, 4, 1) == t[7]);
            assert(nth_run_tok(t, 3, 2) == t[7]);
            assert(nth_run_tok(t, 2, 2) == t[7]);
            assert(nth_run_tok(t, 1, 3) == t[7]);
            assert(nth_run_tok(t, 0, 3) == t[7]);
        },
    }
}

/// The round-trip pattern has at least three captures.
proof fn lemma_rtt_pattern_arity(p: Platform)
    ensures
        run_count(rtt_pattern(p), 0) >= 3,
{
    let t = rtt_pattern(p);
    match p {
        Platform::Linux => {
            assert(run_count(t, 9) == 0);
            assert(run_count(t, 8) == 0);
            assert(run_count(t, 7) == 1);
            assert(run_count(t, 6) == 1);
            assert(run_count(t, 5) == 2);
            assert(run_count(t, 4) == 2);
            assert(run_count(t, 3) == 3);
            assert(run_count(t, 2) == 3);
            assert(run_count(t, 1) == 4);
            assert(run_count(t, 0) == 4);
        },
        Platform::Windows => {
            assert(run_count(t, 7) == 0);
            assert(run_count(t, 6) == 0);
            assert(run_count(t, 5) == 1);
            assert(run_count(t, 4) == 1);
            assert(run_count(t, 3) == 2);
            assert(run_count(t, 2) == 2);
            assert(run_count(t, 1) == 3);
            assert(run_count(t, 0) == 3);
        },
    }
}

/// The packet-loss pattern tokens for `p`.
fn loss_pattern_toks(p: Platform) -> (r: Vec<PatTok>)
    ensures
        r.deep_view() == loss_pattern(p),
{
    match p {
        Platform::Linux => {
            let v = vec![
                PatTok::Digits,
                PatTok::Lit(" packets transmitted, "),
                PatTok::Digits,
                PatTok::Lit(" received, "),
                PatTok::Digits,
                PatTok::Lit("% packet loss, time "),
                PatTok::Digits,
                PatTok::Lit("ms"),
            ];
            proof {
                assert(v.deep_view() =~~= loss_pattern(p));
            }
            v
        },
        Platform::Windows => {
            let v = vec![
                PatTok::Lit("Packets: Sent = "),
                PatTok::Digits,
                PatTok::Lit(", Received = "),
                PatTok::Digits,
                PatTok::Lit(", Lost = "),
                PatTok::Digits,
                PatTok::Lit(" ("),
                PatTok::Digits,
                PatTok::Lit("% loss),"),
            ];
            proof {
                assert(v.deep_view() =~~= loss_pattern(p));
            }
            v
        },
    }
}

/// The round-trip pattern tokens for `p`.
fn rtt_pattern_toks(p: Platform) -> (r: Vec<PatTok>)
    ensures
        r.deep_view() == rtt_pattern(p),
{
    match p {
        Platform::Linux => {
            let v = vec![
                PatTok::Lit("rtt min/avg/max/mdev = "),
                PatTok::Number,
                PatTok::Lit("/"),
                PatTok::Number,
                PatTok::Lit("/"),
                PatTok::Number,
                PatTok::Lit("/"),
                PatTok::Number,
                PatTok::Lit(" ms"),
            ];
            proof {
                assert(v.deep_view() =~~= rtt_pattern(p));
            }
            v
        },
        Platform::Windows => {
            let v = vec![
                PatTok::Lit("Minimum = "),
                PatTok::Digits,
                PatTok::Lit("ms, Maximum = "),
                PatTok::Digits,
                PatTok::Lit("ms, Average = "),
                PatTok::Digits,
                PatTok::Lit("ms"),
            ];
            proof {
                assert(v.deep_view() =~~= rtt_pattern(p));
            }
            v
        },
    }
}

/// What a successful parse holds, given the two last-match capture sets.
pub open spec fn ping_result_ok(
    out: PingOutput,
    loss: Option<Seq<Seq<char>>>,
    rtt: Option<Seq<Seq<char>>>,
    p: Platform,
) -> bool {
    (match loss {
        Some(caps) => digits_value(caps[loss_capture_index(p)]) <= u64::MAX && out.packet_loss
            == (Decimal { mantissa: digits_value(caps[loss_capture_index(p)]) as u64, scale: 2 }),
        None => out.packet_loss == (Decimal { mantissa: 0, scale: 2 }),
    }) && (match rtt {
        Some(caps) => dec_of(caps[0]) == Some(out.rtt_min) && dec_of(caps[1]) == Some(out.rtt_avg)
            && dec_of(caps[2]) == Some(out.rtt_max),
        None => out.rtt_min == (Decimal { mantissa: 0, scale: 0 }) && out.rtt_avg == (Decimal {
            mantissa: 0,
            scale: 0,
        }) && out.rtt_max == (Decimal { mantissa: 0, scale: 0 }),
    })
}

/// Whether the two last-match capture sets both read as numbers.
pub open spec fn ping_captures_ok(
    loss: Option<Seq<Seq<char>>>,
    rtt: Option<Seq<Seq<char>>>,
    p: Platform,
) -> bool {
    (match loss {
        Some(caps) => digits_value(caps[loss_capture_index(p)]) <= u64::MAX,
        None => true,
    }) && (match rtt {
        Some(caps) => dec_of(caps[0]) is Some && dec_of(caps[1]) is Some && dec_of(caps[2])
            is Some,
        None => true,
    })
}

/// Parses ping output: the percentage of the last packet-loss line,
/// scaled to a fraction of one, and the three times of the last
/// round-trip line. A missing line leaves its values at zero.
pub fn parse_ping_output(p: Platform, text: &str) -> (r: Result<PingOutput, ParseError>)
    ensures
        ({
            let loss = last_loss_captures(spec_lines(text@), p);
            let rtt = last_rtt_captures(spec_lines(text@), p);
            &&& (r is Ok <==> ping_captures_ok(loss, rtt, p))
            &&& (r matches Ok(out) ==> ping_result_ok(out, loss, rtt, p))
        }),
{
    let chars = to_chars(text);
    let lines = lines_of(&chars);
    let ghost all = lines.deep_view();
    let loss_toks = loss_pattern_toks(p);
    let rtt_toks = rtt_pattern_toks(p);
    let mut loss_caps: Option<Vec<Vec<char>>> = None;
    let mut rtt_caps: Option<Vec<Vec<char>>> = None;
    let mut i: usize = 0;
    proof {
        assert(all.take(0) =~~= Seq::<Seq<char>>::empty());
    }
    while i < lines.len()
        invariant
            i <= lines.len(),
            all == lines.deep_view(),
            all == spec_lines(text@),
            loss_toks.deep_view() == loss_pattern(p),
            rtt_toks.deep_view() == rtt_pattern(p),
            match loss_caps {
                Some(v) => last_loss_captures(all.take(i as int), p) == Some(v.deep_view()),
                None => last_loss_captures(all.take(i as int), p) is None,
            },
            match rtt_caps {
                Some(v) => last_rtt_captures(all.take(i as int), p) == Some(v.deep_view()),
                None => last_rtt_captures(all.take(i as int), p) is None,
            },
        decreases lines.len() - i,
    {
        let line = &lines[i];
        proof {
            assert(line@ =~= all[i as int]);
            assert(all.take(i + 1).drop_last() =~~= all.take(i as int));
            assert(all.take(i + 1).last() =~= all[i as int]);
        }
        match find_pattern(line, &loss_toks) {
            Some(c) => {
                loss_caps = Some(c);
            },
            None => {
                match find_pattern(line, &rtt_toks) {
                    Some(c) => {
                        rtt_caps = Some(c);
                    },
                    None => {
                    },
                }
            },
        }
        i = i + 1;
    }
    proof {
        assert(all.take(lines@.len() as int) =~~= all);
    }
    let ghost loss_spec = last_loss_captures(all, p);
    let ghost rtt_spec = last_rtt_captures(all, p);
    let packet_loss: Decimal = match &loss_caps {
        Some(caps) => {
            proof {
                lemma_loss_pattern_arity(p);
                lemma_pattern_captures_of_last_loss(all, p);
            }
            let idx: usize = match p {
                Platform::Linux => 2,
                Platform::Windows => 3,
            };
            let cap = &caps[idx];
            proof {
                assert(cap@ =~= loss_spec.unwrap()[loss_capture_index(p)]);
            }
            match parse_u64_digits(cap, 0, cap.len()) {
                Some(v) => {
                    proof {
                        assert(cap@.subrange(0, cap@.len() as int) =~= cap@);
                    }
                    Decimal { mantissa: v, scale: 2 }
                },
                None => {
                    proof {
                        assert(cap@.subrange(0, cap@.len() as int) =~= cap@);
                    }
                    return Err(ParseError::InvalidNumber(chars_to_string(cap)));
                },
            }
        },
        None => Decimal { mantissa: 0, scale: 2 },
    };
    let (rtt_min, rtt_avg, rtt_max): (Decimal, Decimal, Decimal) = match &rtt_caps {
        Some(caps) => {
            proof {
                lemma_rtt_pattern_arity(p);
                lemma_pattern_captures_of_last_rtt(all, p);
            }
            let c0 = &caps[0];
            let c1 = &caps[1];
            let c2 = &caps[2];
            proof {
                assert(c0@ =~= rtt_spec.unwrap()[0]);
                assert(c1@ =~= rtt_spec.unwrap()[1]);
                assert(c2@ =~= rtt_spec.unwrap()[2]);
                assert(c0@.subrange(0, c0@.len() as int) =~= c0@);
                assert(c1@.subrange(0, c1@.len() as int) =~= c1@);
                assert(c2@.subrange(0, c2@.len() as int) =~= c2@);
            }
            let v0 = match parse_decimal(c0, 0, c0.len()) {
                Some(v) => v,
                None => {
                    return Err(ParseError::InvalidNumber(chars_to_string(c0)));
                },
            };
            let v1 = match parse_decimal(c1, 0, c1.len()) {
                Some(v) => v,
                None => {
                    return Err(ParseError::InvalidNumber(chars_to_string(c1)));
                },
            };
            let v2 = match parse_decimal(c2, 0, c2.len()) {
                Some(v) => v,
                None => {
                    return Err(ParseError::InvalidNumber(chars_to_string(c2)));
                },
            };
            (v0, v1, v2)
        },
        None => (
            Decimal { mantissa: 0, scale: 0 },
            Decimal { mantissa: 0, scale: 0 },
            Decimal { mantissa: 0, scale: 0 },
        ),
    };
    Ok(PingOutput { packet_loss, rtt_min, rtt_avg, rtt_max })
}

/// The last-match loss captures come from some matching line, so they
/// have the pattern's shape: four captures, the percentage one a digit
/// run.
proof fn lemma_pattern_captures_of_last_loss(lines: Seq<Seq<char>>, p: Platform)
    requires
        last_loss_captures(lines, p) is Some,
    ensures
        ({
            let caps = last_loss_captures(lines, p).unwrap();
            caps.len() == run_count(loss_pattern(p), 0) && forall|k: int, j: int|
                0 <= k < caps.len() && 0 <= j < caps[k].len() ==> crate::pattern::tok_class(
                    nth_run_tok(loss_pattern(p), 0, k),
                    #[trigger] caps[k][j],
                )
        }),
    decreases lines.len(),
{
    if lines.len() > 0 {
        match pattern_captures(lines.last(), loss_pattern(p)) {
            Some(caps) => {
                lemma_pattern_captures(lines.last(), loss_pattern(p), 0);
            },
            None => {
                lemma_pattern_captures_of_last_loss(lines.drop_last(), p);
            },
        }
    }
}

/// The last-match round-trip captures come from some matching line, so
/// they number one per run token of the pattern.
proof fn lemma_pattern_captures_of_last_rtt(lines: Seq<Seq<char>>, p: Platform)
    requires
        last_rtt_captures(lines, p) is Some,
    ensures
        last_rtt_captures(lines, p).unwrap().len() == run_count(rtt_pattern(p), 0),
    decreases lines.len(),
{
    if lines.len() > 0 {
        if pattern_captures(lines.last(), loss_pattern(p)) is None && pattern_captures(
            lines.last(),
            rtt_pattern(p),
        ) is Some {
            lemma_pattern_captures(lines.last(), rtt_pattern(p), 0);
        } else {
            lemma_pattern_captures_of_last_rtt(lines.drop_last(), p);
        }
    }
}

} // verus!
