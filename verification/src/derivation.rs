//! Typed hierarchical derivation paths, and a verified parser from the
//! textual template form. A template such as `m/44'/60'/0'/0/` names a fixed
//! prefix of child indices; the zero-based account index is substituted at
//! its end to select the i-th child key. Parsing happens once, at startup;
//! derivation itself works on the typed form and has no string failure mode.

use vstd::prelude::*;
use vstd::string::StrSliceExecFns;
use vstd::string::StringExecFns;

verus! {

/// Child indices with a value of `HARDENED_LIMIT` or above are hardened;
/// a path segment therefore carries a raw value below it.
pub const HARDENED_LIMIT: u64 = 0x8000_0000;

/// One segment of a derivation path: the index of a child key, either
/// normal or hardened. The raw value is below `HARDENED_LIMIT`.
#[derive(Clone, Copy, Debug, PartialEq, Eq, Structural)]
pub enum ChildIndex {
    /// A normal (non-hardened) child, written as bare digits.
    Normal(u32),
    /// A hardened child, written with a trailing apostrophe.
    Hardened(u32),
}

/// A decimal digit, as a path segment is written in.
pub open spec fn is_path_digit(c: char) -> bool {
    48 <= c as u32 && c as u32 <= 57
}

/// The numeric value of one decimal digit.
pub open spec fn digit_val(c: char) -> nat
    recommends
        is_path_digit(c),
{
    (c as u32 - 48) as nat
}

/// The value of a run of decimal digits, most significant first.
pub open spec fn digits_value(s: Seq<char>) -> nat
    decreases s.len(),
{
    if s.len() == 0 {
        0
    } else {
        digits_value(s.drop_last()) * 10 + digit_val(s.last())
    }
}

/// The value of a run of digits, clamped at `HARDENED_LIMIT`; everything at
/// the limit or above is malformed, so the clamp loses nothing.
pub open spec fn sat_digits_value(s: Seq<char>) -> nat {
    if digits_value(s) >= HARDENED_LIMIT {
        HARDENED_LIMIT as nat
    } else {
        digits_value(s)
    }
}

/// The length of the maximal digit prefix of a sequence.
pub open spec fn digit_run_len(s: Seq<char>) -> nat
    decreases s.len(),
{
    if s.len() == 0 {
        0
    } else if !is_path_digit(s[0]) {
        0
    } else {
        1 + digit_run_len(s.subrange(1, s.len() as int))
    }
}

/// A digit run is determined by its characterization: `d` digits followed by
/// the end or a non-digit.
pub proof fn lemma_digit_run_len_is(s: Seq<char>, d: int)
    requires
        0 <= d <= s.len(),
        forall|k: int| 0 <= k < d ==> is_path_digit(#[trigger] s[k]),
        d < s.len() ==> !is_path_digit(s[d]),
    ensures
        digit_run_len(s) == d,
    decreases s.len(),
{
    if d == 0 {
    } else {
        assert(is_path_digit(s[0]));
        let t = s.subrange(1, s.len() as int);
        assert forall|k: int| 0 <= k < d - 1 implies is_path_digit(#[trigger] t[k]) by {
            assert(t[k] == s[k + 1]);
        }
        if d - 1 < t.len() {
            assert(t[d - 1] == s[d]);
        }
        lemma_digit_run_len_is(t, d - 1);
    }
}

/// Extending a digit window by one character multiplies its value by ten and
/// adds the new digit.
pub proof fn lemma_digits_value_step(s: Seq<char>, a: int, b: int)
    requires
        0 <= a <= b < s.len(),
    ensures
        digits_value(s.subrange(a, b + 1)) == digits_value(s.subrange(a, b)) * 10 + digit_val(
            s[b],
        ),
{
    assert(s.subrange(a, b + 1).drop_last() =~= s.subrange(a, b));
    assert(s.subrange(a, b + 1).last() == s[b]);
}

/// What a sequence of segment characters parses to: each segment is a
/// non-empty digit run with a value below `HARDENED_LIMIT`, an optional
/// apostrophe marking it hardened, and a terminating slash. `None` is
/// malformed.
pub open spec fn spec_parse_segments(s: Seq<char>) -> Option<Seq<ChildIndex>>
    decreases s.len(),
{
    if s.len() == 0 {
        Some(Seq::empty())
    } else {
        let d = digit_run_len(s) as int;
        if d == 0 {
            None
        } else if digits_value(s.subrange(0, d)) >= HARDENED_LIMIT {
            None
        } else {
            let v = digits_value(s.subrange(0, d)) as u32;
            if d < s.len() && s[d] as u32 == 39 {
                if d + 1 < s.len() && s[d + 1] as u32 == 47 {
                    match spec_parse_segments(s.subrange(d + 2, s.len() as int)) {
                        Some(rest) => Some(seq![ChildIndex::Hardened(v)] + rest),
                        None => None,
                    }
                } else {
                    None
                }
            } else if d < s.len() && s[d] as u32 == 47 {
                match spec_parse_segments(s.subrange(d + 1, s.len() as int)) {
                    Some(rest) => Some(seq![ChildIndex::Normal(v)] + rest),
                    None => None,
                }
            } else {
                None
            }
        }
    }
}

/// A template that does not end in a slash means the same as the one with a
/// slash appended; the slash is where the account index goes.
pub open spec fn normalize_path(s: Seq<char>) -> Seq<char> {
    if s.len() > 0 && s.last() as u32 == 47 {
        s
    } else {
        s.push('/')
    }
}

/// What a full template parses to: the master marker `m`, a slash, then
/// segments, after normalization.
pub open spec fn spec_parse_path(s: Seq<char>) -> Option<Seq<ChildIndex>> {
    let t = normalize_path(s);
    if t.len() >= 2 && t[0] as u32 == 109 && t[1] as u32 == 47 {
        spec_parse_segments(t.subrange(2, t.len() as int))
    } else {
        None
    }
}

/// Parse a derivation-path template into its typed segments. Returns the
/// segments exactly when the template conforms to the grammar, and nothing
/// otherwise.
pub fn parse_derivation_path(s: &str) -> (r: Option<Vec<ChildIndex>>)
    ensures
        match r {
            Some(t) => spec_parse_path(s@) == Some(t@),
            None => spec_parse_path(s@) is None,
        },
{
    let sl: usize = s.unicode_len();
    let mut t = String::from_str(s);
    if sl == 0 || s.get_char(sl - 1) as u32 != 47 {
        t.append("/");
        proof {
            reveal_strlit("/");
            assert('/' as u32 == 47);
            assert(t@ =~= normalize_path(s@));
        }
    } else {
        proof {
            assert(s@.last() == s@[sl - 1]);
            assert(t@ =~= normalize_path(s@));
        }
    }
    let ghost tv: Seq<char> = t@;
    let n: usize = t.as_str().unicode_len();
    if n < 2 {
        return None;
    }
    if t.as_str().get_char(0) as u32 != 109 || t.as_str().get_char(1) as u32 != 47 {
        return None;
    }
    let mut segs: Vec<ChildIndex> = Vec::new();
    let mut i: usize = 2;
    while i < n
        invariant
            2 <= i <= n,
            n == tv.len(),
            t@ == tv,
            spec_parse_path(s@) == spec_parse_segments(tv.subrange(2, n as int)),
            (match spec_parse_segments(tv.subrange(i as int, n as int)) {
                Some(rest) => spec_parse_segments(tv.subrange(2, n as int)) == Some(segs@ + rest),
                None => spec_parse_segments(tv.subrange(2, n as int)) is None,
            }),
        decreases n - i,
    {
        let ghost rem = tv.subrange(i as int, n as int);
        let start: usize = i;
        let mut val: u64 = 0;
        let mut stop: bool = false;
        while i < n && !stop
            invariant
                start <= i <= n,
                n == tv.len(),
                t@ == tv,
                forall|k: int| start <= k < i ==> is_path_digit(#[trigger] tv[k]),
                val as nat == sat_digits_value(tv.subrange(start as int, i as int)),
                val <= HARDENED_LIMIT,
                stop ==> i < n && !is_path_digit(tv[i as int]),
            decreases n - i + if stop {
                0int
            } else {
                1int
            },
        {
            let c = t.as_str().get_char(i);
            let cv = c as u32;
            if 48 <= cv && cv <= 57 {
                proof {
                    lemma_digits_value_step(tv, start as int, i as int);
                    assert(tv.subrange(start as int, i as int) =~= tv.subrange(
                        start as int,
                        i + 1,
                    ).drop_last());
                }
                let dv: u64 = (cv - 48) as u64;
                let w: u64 = val * 10 + dv;
                proof {
                    let prefix = tv.subrange(start as int, i as int);
                    let extended = tv.subrange(start as int, i + 1);
                    if digits_value(prefix) >= HARDENED_LIMIT {
                        assert(digits_value(prefix) * 10 >= digits_value(prefix)) by (nonlinear_arith)
                            requires
                                digits_value(prefix) >= 0,
                        ;
                        assert(digits_value(extended) >= HARDENED_LIMIT);
                    }
                }
                val = if w >= 0x8000_0000u64 {
                    0x8000_0000u64
                } else {
                    w
                };
                i = i + 1;
            } else {
                stop = true;
            }
        }
        // The digit run of the remainder is exactly what was scanned.
        proof {
            assert forall|k: int| 0 <= k < i - start implies is_path_digit(#[trigger] rem[k]) by {
                assert(rem[k] == tv[start + k]);
            }
            if i - start < rem.len() {
                assert(rem[i - start] == tv[i as int]);
            }
            lemma_digit_run_len_is(rem, i - start);
            assert(rem.subrange(0, i - start) =~= tv.subrange(start as int, i as int));
        }
        if i == start {
            // No digits where a segment must begin: malformed.
            return None;
        }
        if val >= 0x8000_0000u64 {
            // Segment value out of the child-index range: malformed.
            return None;
        }
        let seg_val: u32 = val as u32;
        let hardened: bool = i < n && t.as_str().get_char(i) as u32 == 39;
        if hardened {
            i = i + 1;
        }
        if !(i < n && t.as_str().get_char(i) as u32 == 47) {
            // A segment must be terminated by a slash: malformed.
            proof {
                if i < rem.len() + start {
                    assert(rem[i - start] == tv[i as int]);
                }
            }
            return None;
        }
        proof {
            assert(rem[i - start] == tv[i as int]);
            if hardened {
                assert(rem[i - 1 - start] == tv[i as int - 1]);
            }
        }
        i = i + 1;
        let seg = if hardened {
            ChildIndex::Hardened(seg_val)
        } else {
            ChildIndex::Normal(seg_val)
        };
        proof {
            assert(rem.subrange(i - start, rem.len() as int) =~= tv.subrange(i as int, n as int));
            let tail = spec_parse_segments(tv.subrange(i as int, n as int));
            if tail is Some {
                assert(spec_parse_segments(rem) == Some(seq![seg] + tail->0));
                assert(segs@.push(seg) + tail->0 =~= segs@ + (seq![seg] + tail->0));
            } else {
                assert(spec_parse_segments(rem) is None);
            }
        }
        segs.push(seg);
    }
    proof {
        assert(tv.subrange(n as int, n as int) =~= Seq::<char>::empty());
        assert(segs@ + Seq::<ChildIndex>::empty() =~= segs@);
    }
    Some(segs)
}

} // verus!
