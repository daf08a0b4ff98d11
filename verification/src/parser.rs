//! Decimal input parsing.
//!
//! An operator enters pressures and temperatures as plain decimal text: an
//! optional sign, digits, and at most one decimal point. The parser turns
//! such a line into an exact rational. Input with any other shape — or with
//! more than nine digits, the precision this library's exact arithmetic
//! admits — is rejected, and the caller re-prompts.

use vstd::prelude::*;
use crate::rational::{Qty, Rat, rat_bounded};

verus! {

pub open spec fn is_ascii_digit(b: u8) -> bool {
    48 <= b && b <= 57
}

/// State of a left-to-right scan over the digits-and-dot core of a decimal
/// literal (the text after any sign).
pub struct ScanState {
    /// no byte so far was out of place
    pub ok: bool,
    /// a decimal point has been passed
    pub seen_dot: bool,
    /// digits seen so far
    pub digits: int,
    /// digits seen after the decimal point
    pub frac_digits: int,
    /// the digits so far, read as an integer
    pub mantissa: int,
}

pub open spec fn scan_init() -> ScanState {
    ScanState { ok: true, seen_dot: false, digits: 0, frac_digits: 0, mantissa: 0 }
}

pub open spec fn scan_step(st: ScanState, b: u8) -> ScanState {
    if !st.ok {
        st
    } else if is_ascii_digit(b) {
        ScanState {
            mantissa: st.mantissa * 10 + (b - 48),
            digits: st.digits + 1,
            frac_digits: if st.seen_dot { st.frac_digits + 1 } else { st.frac_digits },
            ..st
        }
    } else if b == 46 && !st.seen_dot {
        ScanState { seen_dot: true, ..st }
    } else {
        ScanState { ok: false, ..st }
    }
}

pub open spec fn scan(s: Seq<u8>) -> ScanState
    decreases s.len(),
{
    if s.len() == 0 {
        scan_init()
    } else {
        scan_step(scan(s.drop_last()), s.last())
    }
}

pub open spec fn has_sign(s: Seq<u8>) -> bool {
    s.len() > 0 && (s[0] == 43 || s[0] == 45)
}

pub open spec fn is_negative(s: Seq<u8>) -> bool {
    s.len() > 0 && s[0] == 45
}

/// The text after any leading sign.
pub open spec fn core_of(s: Seq<u8>) -> Seq<u8> {
    if has_sign(s) {
        s.subrange(1, s.len() as int)
    } else {
        s
    }
}

pub open spec fn pow10(k: int) -> int
    decreases k,
{
    if k <= 0 {
        1
    } else {
        10 * pow10(k - 1)
    }
}

/// A line parses when its core is digits with at most one dot, at least one
/// digit, and at most nine digits in all.
pub open spec fn parse_ok(s: Seq<u8>) -> bool {
    let st = scan(core_of(s));
    st.ok && 1 <= st.digits <= 9
}

/// The exact rational a well-formed line denotes: the digits as an integer
/// over ten to the number of fraction digits, negated under a minus sign.
pub open spec fn parse_value(s: Seq<u8>) -> Rat {
    let st = scan(core_of(s));
    Rat {
        n: if is_negative(s) { -st.mantissa } else { st.mantissa },
        d: pow10(st.frac_digits),
    }
}

pub proof fn lemma_pow10_values()
    ensures
        pow10(0) == 1,
        pow10(1) == 10,
        pow10(2) == 100,
        pow10(3) == 1000,
        pow10(4) == 10000,
        pow10(5) == 100000,
        pow10(6) == 1000000,
        pow10(7) == 10000000,
        pow10(8) == 100000000,
        pow10(9) == 1000000000,
{
    assert(pow10(0) == 1);
    assert(pow10(1) == 10);
    assert(pow10(2) == 100);
    assert(pow10(3) == 1000);
    assert(pow10(4) == 10000);
    assert(pow10(5) == 100000);
    assert(pow10(6) == 1000000);
    assert(pow10(7) == 10000000);
    assert(pow10(8) == 100000000);
    assert(pow10(9) == 1000000000);
}

pub proof fn lemma_pow10_monotone(a: int, b: int)
    requires
        0 <= a <= b,
    ensures
        1 <= pow10(a) <= pow10(b),
    decreases b,
{
    if b > a {
        lemma_pow10_monotone(a, b - 1);
    } else {
        lemma_pow10_positive(a);
    }
}

pub proof fn lemma_pow10_positive(k: int)
    ensures
        pow10(k) >= 1,
    decreases k,
{
    if k > 0 {
        lemma_pow10_positive(k - 1);
    }
}

/// A scan that ends well went well the whole way, and the digit count only
/// grows along the way.
pub proof fn lemma_scan_prefix(s: Seq<u8>, i: int)
    requires
        0 <= i <= s.len(),
        scan(s).ok,
    ensures
        scan(s.take(i)).ok,
        scan(s.take(i)).digits <= scan(s).digits,
    decreases s.len(),
{
    if i == s.len() {
        assert(s.take(i) =~= s);
    } else {
        assert(scan(s) == scan_step(scan(s.drop_last()), s.last()));
        assert(scan(s.drop_last()).ok);
        lemma_scan_prefix(s.drop_last(), i);
        assert(s.drop_last().take(i) =~= s.take(i));
    }
}

/// Parse a trimmed input line as an exact decimal. `None` exactly on the
/// lines `parse_ok` rejects; on success the value is the line's exact
/// rational denotation, well within the session's input bound.
pub fn parse_decimal(s: &[u8]) -> (r: Option<Qty>)
    ensures
        r is Some <==> parse_ok(s@),
        r matches Some(q) ==> q@ == parse_value(s@) && q.wf() && rat_bounded(q@, 1_000_000_000),
{
    proof {
        lemma_pow10_values();
    }
    let len: usize = s.len();
    let mut start: usize = 0;
    let mut neg = false;
    if len > 0 && (s[0] == 43 || s[0] == 45) {
        neg = s[0] == 45;
        start = 1;
    }
    let ghost core: Seq<u8> = s@.subrange(start as int, len as int);
    proof {
        assert(core =~= core_of(s@));
        assert(neg == is_negative(s@));
    }
    let mut i: usize = start;
    let mut seen_dot = false;
    let mut digits: usize = 0;
    let mut mantissa: i128 = 0;
    let mut den: i128 = 1;
    while i < len
        invariant
            start <= i <= len,
            len == s@.len(),
            start <= 1,
            core == core_of(s@),
            core == s@.subrange(start as int, len as int),
            scan(core.take(i - start)) == (ScanState {
                ok: true,
                seen_dot: seen_dot,
                digits: digits as int,
                frac_digits: scan(core.take(i - start)).frac_digits,
                mantissa: mantissa as int,
            }),
            digits <= 9,
            0 <= scan(core.take(i - start)).frac_digits <= digits as int,
            0 <= mantissa < pow10(digits as int),
            den == pow10(scan(core.take(i - start)).frac_digits),
            1 <= den <= 1_000_000_000,
        decreases len - i,
    {
        let ghost j: int = i - start;
        let ghost st = scan(core.take(j));
        let b: u8 = s[i];
        proof {
            assert(core.take(j + 1) =~= core.take(j).push(b));
            assert(core.take(j).push(b).drop_last() =~= core.take(j));
            assert(scan(core.take(j + 1)) == scan_step(st, b));
        }
        if b >= 48 && b <= 57 {
            if digits == 9 {
                proof {
                    assert(scan(core.take(j + 1)).digits == 10);
                    if scan(core).ok {
                        lemma_scan_prefix(core, j + 1);
                    }
                }
                return None;
            }
            proof {
                lemma_pow10_values();
                lemma_pow10_monotone(digits as int, 8);
                lemma_pow10_monotone(st.frac_digits, 8);
                assert(pow10(digits as int + 1) == 10 * pow10(digits as int));
                if seen_dot {
                    assert(pow10(st.frac_digits + 1) == 10 * pow10(st.frac_digits));
                }
            }
            mantissa = mantissa * 10 + ((b - 48) as i128);
            digits = digits + 1;
            if seen_dot {
                den = den * 10;
            }
        } else if b == 46 && !seen_dot {
            seen_dot = true;
        } else {
            proof {
                assert(!scan(core.take(j + 1)).ok);
                if scan(core).ok {
                    lemma_scan_prefix(core, j + 1);
                }
            }
            return None;
        }
        i = i + 1;
    }
    proof {
        assert(core.take(len - start) =~= core);
        lemma_pow10_monotone(digits as int, 9);
    }
    if digits == 0 {
        return None;
    }
    if neg {
        Some(Qty { num: -mantissa, den: den })
    } else {
        Some(Qty { num: mantissa, den: den })
    }
}

} // verus!
