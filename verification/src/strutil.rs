//! Verified string helpers: decimal rendering of counters and durations, and
//! decimal parsing of the numeric identifiers that arrive as strings on the
//! wire.

use vstd::prelude::*;
use vstd::string::StringSliceAdditionalSpecFns;

verus! {

/// The contents of an `Option<String>`.
pub open spec fn opt_str_view(o: Option<String>) -> Option<Seq<char>> {
    match o {
        Some(s) => Some(s@),
        None => None,
    }
}

/// The decimal digit character for `d` (meaningful for `d < 10`).
pub open spec fn spec_digit_char(d: nat) -> char {
    if d == 0 {
        '0'
    } else if d == 1 {
        '1'
    } else if d == 2 {
        '2'
    } else if d == 3 {
        '3'
    } else if d == 4 {
        '4'
    } else if d == 5 {
        '5'
    } else if d == 6 {
        '6'
    } else if d == 7 {
        '7'
    } else if d == 8 {
        '8'
    } else {
        '9'
    }
}

/// The usual decimal rendering of `n`, most significant digit first, with no
/// leading zeros (a single `'0'` for zero).
pub open spec fn spec_u64_dec(n: nat) -> Seq<char>
    decreases n,
{
    if n < 10 {
        seq![spec_digit_char(n)]
    } else {
        spec_u64_dec(n / 10) + seq![spec_digit_char(n % 10)]
    }
}

/// `n` rendered to exactly two digits (meaningful for `n < 100`).
pub open spec fn spec_pad2(n: nat) -> Seq<char> {
    if n < 10 {
        seq!['0'] + seq![spec_digit_char(n)]
    } else {
        spec_u64_dec(n)
    }
}

/// A track duration of `ms` milliseconds rendered as `h:mm:ss` when it
/// reaches an hour and `m:ss` otherwise.
pub open spec fn spec_format_duration(ms: nat) -> Seq<char> {
    let seconds = ms / 1000;
    let minutes = seconds / 60;
    let hours = minutes / 60;
    if hours > 0 {
        spec_u64_dec(hours) + seq![':'] + spec_pad2(minutes % 60) + seq![':'] + spec_pad2(
            seconds % 60,
        )
    } else {
        spec_u64_dec(minutes) + seq![':'] + spec_pad2(seconds % 60)
    }
}

/// The single-character string for digit `d`.
fn digit_str(d: u64) -> (r: &'static str)
    requires
        d < 10,
    ensures
        r@ =~= seq![spec_digit_char(d as nat)],
{
    proof {
        reveal_strlit("0");
        reveal_strlit("1");
        reveal_strlit("2");
        reveal_strlit("3");
        reveal_strlit("4");
        reveal_strlit("5");
        reveal_strlit("6");
        reveal_strlit("7");
        reveal_strlit("8");
        reveal_strlit("9");
    }
    if d == 0 {
        "0"
    } else if d == 1 {
        "1"
    } else if d == 2 {
        "2"
    } else if d == 3 {
        "3"
    } else if d == 4 {
        "4"
    } else if d == 5 {
        "5"
    } else if d == 6 {
        "6"
    } else if d == 7 {
        "7"
    } else if d == 8 {
        "8"
    } else {
        "9"
    }
}

/// Renders `n` in decimal.
pub fn u64_to_dec(n: u64) -> (s: String)
    ensures
        s@ =~= spec_u64_dec(n as nat),
    decreases n,
{
    if n < 10 {
        digit_str(n).to_owned()
    } else {
        let mut s = u64_to_dec(n / 10);
        s.append(digit_str(n % 10));
        s
    }
}

/// Renders `n < 100` as exactly two digits.
fn pad2(n: u64) -> (s: String)
    requires
        n < 100,
    ensures
        s@ =~= spec_pad2(n as nat),
{
    if n < 10 {
        let mut s = "0".to_owned();
        proof {
            reveal_strlit("0");
        }
        s.append(digit_str(n));
        s
    } else {
        u64_to_dec(n)
    }
}

/// Renders a duration given in milliseconds as `h:mm:ss` when it reaches an
/// hour and `m:ss` otherwise; seconds (and minutes, once hours appear) are
/// zero-padded to two digits.
pub fn format_duration(ms: u64) -> (s: String)
    ensures
        s@ =~= spec_format_duration(ms as nat),
{
    let seconds: u64 = ms / 1000;
    let minutes: u64 = seconds / 60;
    let hours: u64 = minutes / 60;
    proof {
        reveal_strlit(":");
    }
    if hours > 0 {
        let mut s = u64_to_dec(hours);
        s.append(":");
        s.append(pad2(minutes % 60).as_str());
        s.append(":");
        s.append(pad2(seconds % 60).as_str());
        s
    } else {
        let mut s = u64_to_dec(minutes);
        s.append(":");
        s.append(pad2(seconds % 60).as_str());
        s
    }
}

/// The decimal rendering of a signed value: a `-` before the magnitude for
/// negative values.
pub open spec fn spec_i64_dec(n: int) -> Seq<char> {
    if n < 0 {
        seq!['-'] + spec_u64_dec((-n) as nat)
    } else {
        spec_u64_dec(n as nat)
    }
}

/// Renders `n` in decimal, with a leading `-` when negative.
pub fn i64_to_dec(n: i64) -> (s: String)
    ensures
        s@ =~= spec_i64_dec(n as int),
{
    if n >= 0 {
        u64_to_dec(n as u64)
    } else {
        let wide: i128 = n as i128;
        let m: u64 = (-wide) as u64;
        proof {
            reveal_strlit("-");
        }
        let mut s = "-".to_owned();
        s.append(u64_to_dec(m).as_str());
        s
    }
}

/// Whether every byte of `bs` is an ASCII decimal digit.
pub open spec fn spec_all_digits(bs: Seq<u8>) -> bool {
    forall|i: int| 0 <= i < bs.len() ==> 48 <= #[trigger] bs[i] <= 57
}

/// The numeric value of the digit bytes `bs`, most significant first.
pub open spec fn spec_dec_value(bs: Seq<u8>) -> nat
    decreases bs.len(),
{
    if bs.len() == 0 {
        0
    } else {
        spec_dec_value(bs.drop_last()) * 10 + (bs.last() - 48) as nat
    }
}

/// Whether the characters `cs` are a well-formed decimal number that fits in
/// a `u64`: ASCII, nonempty, all digits, value at most `u64::MAX`.
pub open spec fn spec_is_u64_decimal(cs: Seq<char>) -> bool {
    &&& vstd::utf8::is_ascii_chars(cs)
    &&& vstd::utf8::encode_utf8(cs).len() > 0
    &&& spec_all_digits(vstd::utf8::encode_utf8(cs))
    &&& spec_dec_value(vstd::utf8::encode_utf8(cs)) <= u64::MAX
}

/// The numeric value of the decimal characters `cs` (meaningful under
/// `spec_is_u64_decimal`).
pub open spec fn spec_u64_value(cs: Seq<char>) -> nat {
    spec_dec_value(vstd::utf8::encode_utf8(cs))
}

proof fn lemma_dec_value_take_step(bs: Seq<u8>, i: int)
    requires
        0 <= i < bs.len(),
        48 <= bs[i] <= 57,
    ensures
        spec_dec_value(bs.take(i + 1)) == spec_dec_value(bs.take(i)) * 10 + (bs[i] - 48),
{
    assert(bs.take(i + 1).drop_last() =~= bs.take(i));
    assert(bs.take(i + 1).last() == bs[i]);
}

proof fn lemma_dec_value_prefix_bounded(bs: Seq<u8>, i: int)
    requires
        0 <= i <= bs.len(),
    ensures
        spec_dec_value(bs.take(i)) <= spec_dec_value(bs),
    decreases bs.len() - i,
{
    if i == bs.len() {
        assert(bs.take(i) =~= bs);
    } else {
        let t1 = bs.take(i + 1);
        assert(t1.drop_last() =~= bs.take(i));
        let v = spec_dec_value(bs.take(i));
        assert(spec_dec_value(t1) == v * 10 + (t1.last() - 48) as nat);
        assert(v * 10 >= v) by (nonlinear_arith);
        lemma_dec_value_prefix_bounded(bs, i + 1);
    }
}

/// Parses a string of ASCII decimal digits into a `u64`.  Returns the value
/// exactly when `s` is nonempty, all digits, and fits; anything else (empty,
/// a sign, other characters, overflow) yields `None`.
pub fn parse_u64_decimal(s: &str) -> (r: Option<u64>)
    ensures
        spec_is_u64_decimal(s@) ==> r == Some((spec_u64_value(s@) as u64)),
        !spec_is_u64_decimal(s@) ==> r is None,
{
    if !s.is_ascii() {
        return None;
    }
    let bs = s.as_bytes();
    let n = bs.len();
    if n == 0 {
        return None;
    }
    let ghost bseq = s.spec_bytes();
    let mut acc: u64 = 0;
    let mut i: usize = 0;
    while i < n
        invariant
            bseq == s.spec_bytes(),
            s.is_ascii(),
            n == bseq.len(),
            n > 0,
            bs@ =~= bseq,
            0 <= i <= n,
            spec_all_digits(bseq.take(i as int)),
            acc == spec_dec_value(bseq.take(i as int)),
        decreases n - i,
    {
        let b = bs[i];
        if b < 48 || b > 57 {
            proof {
                assert(!(48 <= bseq[i as int] <= 57));
            }
            return None;
        }
        let d: u64 = (b - 48) as u64;
        let shifted = match acc.checked_mul(10) {
            Some(x) => x,
            None => {
                proof {
                    lemma_dec_value_take_step(bseq, i as int);
                    assert(spec_dec_value(bseq.take(i as int + 1)) > u64::MAX);
                    lemma_dec_value_prefix_bounded(bseq, i as int + 1);
                }
                return None;
            },
        };
        let next = match shifted.checked_add(d) {
            Some(x) => x,
            None => {
                proof {
                    lemma_dec_value_take_step(bseq, i as int);
                    assert(spec_dec_value(bseq.take(i as int + 1)) > u64::MAX);
                    lemma_dec_value_prefix_bounded(bseq, i as int + 1);
                }
                return None;
            },
        };
        proof {
            lemma_dec_value_take_step(bseq, i as int);
        }
        acc = next;
        i = i + 1;
    }
    proof {
        assert(bseq.take(n as int) =~= bseq);
    }
    Some(acc)
}

} // verus!
