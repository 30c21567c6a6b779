//! The duration text codec: rendering a duration as text such as
//! "72h3m0.5s" and parsing it back.

use vstd::prelude::*;

use crate::duration::{FlyctlDuration, NANOS_PER_SEC};
use crate::strutil::{spec_dec, spec_digit_char, u128_to_string};

verus! {

/// Reported for duration text this codec does not accept; carries the
/// offending input.
#[derive(Debug, Clone)]
pub struct InvalidDurationFormatError(pub String);

/// Whether `c` is a decimal digit.
pub open spec fn spec_is_digit(c: char) -> bool {
    '0' <= c && c <= '9'
}

/// The value of a digit character.
pub open spec fn spec_digit_val(c: char) -> int {
    c as int - '0' as int
}

/// The value of a digit string read in base ten.
pub open spec fn spec_digits_val(s: Seq<char>) -> int
    decreases s.len(),
{
    if s.len() == 0 {
        0
    } else {
        spec_digits_val(s.drop_last()) * 10 + spec_digit_val(s.last())
    }
}

/// Whether every character of `s` is a decimal digit.
pub open spec fn spec_all_digits(s: Seq<char>) -> bool {
    forall|i: int| 0 <= i < s.len() ==> spec_is_digit(#[trigger] s[i])
}

/// A digit string's value is not negative.
proof fn lemma_digits_val_nonneg(s: Seq<char>)
    requires
        spec_all_digits(s),
    ensures
        spec_digits_val(s) >= 0,
    decreases s.len(),
{
    if s.len() > 0 {
        assert(spec_all_digits(s.drop_last())) by {
            assert(forall|i: int| 0 <= i < s.len() - 1 ==> s.drop_last()[i] == s[i]);
        }
        lemma_digits_val_nonneg(s.drop_last());
    }
}

/// Extending a digit string cannot shrink its value.
proof fn lemma_digits_val_prefix(s: Seq<char>, m: int)
    requires
        spec_all_digits(s),
        0 <= m <= s.len(),
    ensures
        spec_digits_val(s.take(m)) <= spec_digits_val(s),
    decreases s.len() - m,
{
    if m < s.len() {
        assert(s.take(m + 1).drop_last() =~= s.take(m));
        assert(s.take(m + 1).last() == s[m]);
        assert(spec_all_digits(s.take(m))) by {
            assert(forall|i: int| 0 <= i < m ==> s.take(m)[i] == s[i]);
        }
        lemma_digits_val_nonneg(s.take(m));
        assert(spec_digits_val(s.take(m + 1)) == spec_digits_val(s.take(m)) * 10 + spec_digit_val(
            s[m],
        ));
        lemma_digits_val_prefix(s, m + 1);
    } else {
        assert(s.take(m) =~= s);
    }
}

/// Index of the first `.` in `s`, or its length when there is none.
pub open spec fn spec_first_dot(s: Seq<char>) -> int
    decreases s.len(),
{
    if s.len() == 0 {
        0
    } else if s[0] == '.' {
        0
    } else {
        1 + spec_first_dot(s.skip(1))
    }
}

/// The first dot lies at the first position holding a dot.
proof fn lemma_first_dot_at(s: Seq<char>, m: int)
    requires
        0 <= m <= s.len(),
        forall|j: int| 0 <= j < m ==> s[j] != '.',
        m == s.len() || s[m] == '.',
    ensures
        spec_first_dot(s) == m,
    decreases m,
{
    if s.len() == 0 {
    } else if m == 0 {
    } else {
        assert(s[0] != '.');
        assert(forall|j: int| 0 <= j < m - 1 ==> s.skip(1)[j] == s[j + 1]);
        assert(m - 1 == s.skip(1).len() || s.skip(1)[m - 1] == s[m]);
        lemma_first_dot_at(s.skip(1), m - 1);
    }
}

/// A string of `k` zero characters.
pub open spec fn spec_zeros(k: nat) -> Seq<char> {
    Seq::new(k, |i: int| '0')
}

/// The digit string the fixed-point reader consumes from `s` under
/// `shift`: the part before the first dot, then the first `shift`
/// characters after it, padded with zeros to exactly `shift` fraction
/// digits. Characters after the dot beyond `shift` are never read.
pub open spec fn spec_fixed_point_digits(s: Seq<char>, shift: nat) -> Seq<char> {
    let k = spec_first_dot(s);
    let intpart = s.take(k);
    let frac_avail = if k < s.len() {
        s.skip(k + 1)
    } else {
        Seq::<char>::empty()
    };
    let taken_len = if shift <= frac_avail.len() {
        shift as int
    } else {
        frac_avail.len() as int
    };
    intpart + frac_avail.take(taken_len) + spec_zeros((shift - taken_len) as nat)
}

/// Whether the fixed-point reader accepts `s` under `shift`: everything
/// it consumes is a digit.
pub open spec fn spec_fixed_point_ok(s: Seq<char>, shift: nat) -> bool {
    spec_all_digits(spec_fixed_point_digits(s, shift))
}

/// The value the fixed-point reader produces: the consumed digit string
/// read in base ten (the input scaled by ten to the `shift`, fraction
/// truncated).
pub open spec fn spec_fixed_point_val(s: Seq<char>, shift: nat) -> int {
    spec_digits_val(spec_fixed_point_digits(s, shift))
}

/// Reads a decimal number with an optional fraction as an integer
/// scaled by ten to the `shift`: digits before the first dot, then
/// exactly `shift` digits after it, padded with zeros (further fraction
/// digits are truncated unread). Rejects any other consumed character,
/// and a value that does not fit.
pub fn parse_fixed_point(s: &str, shift_amt: usize) -> (r: Result<u64, InvalidDurationFormatError>)
    ensures
        match r {
            Ok(v) => spec_fixed_point_ok(s@, shift_amt as nat) && v == spec_fixed_point_val(
                s@,
                shift_amt as nat,
            ),
            Err(_) => !spec_fixed_point_ok(s@, shift_amt as nat) || spec_fixed_point_val(
                s@,
                shift_amt as nat,
            ) > u64::MAX,
        },
{
    let ghost digits = spec_fixed_point_digits(s@, shift_amt as nat);
    let len = s.unicode_len();
    let mut buf: u64 = 0;
    let mut i: usize = 0;
    while i < len && s.get_char(i) != '.'
        invariant
            len == s@.len(),
            0 <= i <= len,
            digits == spec_fixed_point_digits(s@, shift_amt as nat),
            forall|j: int| 0 <= j < i ==> s@[j] != '.',
            forall|j: int| 0 <= j < i ==> spec_is_digit(#[trigger] s@[j]),
            forall|j: int| 0 <= j < i ==> digits[j] == s@[j],
            i <= digits.len(),
            buf == spec_digits_val(s@.take(i as int)),
        decreases len - i,
    {
        let c = s.get_char(i);
        proof {
            lemma_first_dot_bounds(s@, i + 1);
        }
        if !(c >= '0' && c <= '9') {
            proof {
                assert(digits[i as int] == s@[i as int]);
                assert(!spec_fixed_point_ok(s@, shift_amt as nat));
            }
            return Err(InvalidDurationFormatError(String::from_str(s)));
        }
        let d = (c as u32 - 48) as u64;
        let grown = match buf.checked_mul(10) {
            Some(g) => match g.checked_add(d) {
                Some(g2) => Some(g2),
                None => None,
            },
            None => None,
        };
        buf = match grown {
            Some(g) => g,
            None => {
                proof {
                    if spec_fixed_point_ok(s@, shift_amt as nat) {
                        lemma_overflow_rejects(s@, shift_amt as nat, i as int, buf as int);
                    }
                }
                return Err(InvalidDurationFormatError(String::from_str(s)));
            },
        };
        proof {
            assert(s@.take(i + 1).drop_last() =~= s@.take(i as int));
            assert(s@.take(i + 1).last() == s@[i as int]);
        }
        i += 1;
    }
    // The prefix scanned so far is the whole part before the first dot.
    proof {
        lemma_first_dot_at(s@, i as int);
        assert(s@.take(i as int) =~= digits.take(i as int));
    }
    let dot = i;
    proof {
        assert(spec_fixed_point_digits(s@, shift_amt as nat).len() == dot + shift_amt);
    }
    let mut t: usize = 0;
    while t < shift_amt
        invariant
            len == s@.len(),
            0 <= dot <= len,
            spec_first_dot(s@) == dot,
            digits == spec_fixed_point_digits(s@, shift_amt as nat),
            digits.len() == dot + shift_amt,
            0 <= t <= shift_amt,
            forall|j: int| 0 <= j < dot + t ==> spec_is_digit(#[trigger] digits[j]),
            buf == spec_digits_val(digits.take(dot + t)),
        decreases shift_amt - t,
    {
        let c: char = if dot < len && t < len - (dot + 1) {
            s.get_char(dot + 1 + t)
        } else {
            '0'
        };
        proof {
            assert(digits[dot + t] == (if dot < len && dot + 1 + t < len {
                s@[dot + 1 + t]
            } else {
                '0'
            }));
        }
        if !(c >= '0' && c <= '9') {
            proof {
                assert(!spec_fixed_point_ok(s@, shift_amt as nat));
            }
            return Err(InvalidDurationFormatError(String::from_str(s)));
        }
        let d = (c as u32 - 48) as u64;
        let grown = match buf.checked_mul(10) {
            Some(g) => match g.checked_add(d) {
                Some(g2) => Some(g2),
                None => None,
            },
            None => None,
        };
        buf = match grown {
            Some(g) => g,
            None => {
                proof {
                    if spec_fixed_point_ok(s@, shift_amt as nat) {
                        lemma_overflow_rejects_at(digits, dot + t, buf as int);
                    }
                }
                return Err(InvalidDurationFormatError(String::from_str(s)));
            },
        };
        proof {
            assert(digits.take(dot + t + 1).drop_last() =~= digits.take(dot + t));
            assert(digits.take(dot + t + 1).last() == digits[dot + t]);
        }
        t += 1;
    }
    proof {
        assert(digits.take(dot + shift_amt) =~= digits);
    }
    Ok(buf)
}

/// The first dot lies at or past `m` when no dot stands before `m`.
proof fn lemma_first_dot_bounds(s: Seq<char>, m: int)
    requires
        0 <= m <= s.len(),
        forall|j: int| 0 <= j < m ==> s[j] != '.',
    ensures
        spec_first_dot(s) >= m,
        spec_first_dot(s) <= s.len(),
    decreases s.len(),
{
    lemma_first_dot_le(s);
    if s.len() > 0 && m > 0 {
        assert(forall|j: int| 0 <= j < m - 1 ==> s.skip(1)[j] == s[j + 1]);
        lemma_first_dot_bounds(s.skip(1), m - 1);
    }
}

/// The first dot never lies past the end.
proof fn lemma_first_dot_le(s: Seq<char>)
    ensures
        0 <= spec_first_dot(s) <= s.len(),
    decreases s.len(),
{
    if s.len() > 0 && s[0] != '.' {
        lemma_first_dot_le(s.skip(1));
    }
}

/// When the next digit overflows the accumulator during the whole-part
/// scan, the full consumed value cannot fit either.
proof fn lemma_overflow_rejects(s: Seq<char>, shift: nat, i: int, buf: int)
    requires
        0 <= i < s.len(),
        spec_first_dot(s) >= i + 1,
        forall|j: int| 0 <= j <= i ==> spec_is_digit(#[trigger] s[j]),
        forall|j: int|
            0 <= j < i ==> #[trigger] spec_fixed_point_digits(s, shift)[j] == s[j],
        i < spec_fixed_point_digits(s, shift).len(),
        spec_fixed_point_digits(s, shift)[i] == s[i],
        buf == spec_digits_val(s.take(i)),
        buf * 10 + spec_digit_val(s[i]) > u64::MAX,
        spec_fixed_point_ok(s, shift),
    ensures
        spec_fixed_point_val(s, shift) > u64::MAX,
{
    let digits = spec_fixed_point_digits(s, shift);
    assert(digits.take(i) =~= s.take(i));
    assert(digits.take(i + 1).drop_last() =~= digits.take(i));
    assert(digits.take(i + 1).last() == s[i]);
    assert(spec_digits_val(digits.take(i + 1)) == buf * 10 + spec_digit_val(s[i]));
    lemma_digits_val_prefix(digits, i + 1);
}

/// When the next digit overflows the accumulator during the fraction
/// scan, the full consumed value cannot fit either.
proof fn lemma_overflow_rejects_at(digits: Seq<char>, m: int, buf: int)
    requires
        0 <= m < digits.len(),
        spec_all_digits(digits),
        buf == spec_digits_val(digits.take(m)),
        buf * 10 + spec_digit_val(digits[m]) > u64::MAX,
    ensures
        spec_digits_val(digits) > u64::MAX,
{
    assert(digits.take(m + 1).drop_last() =~= digits.take(m));
    assert(digits.take(m + 1).last() == digits[m]);
    lemma_digits_val_prefix(digits, m + 1);
}


/// Ten to the `k`.
pub open spec fn spec_pow10(k: nat) -> int
    decreases k,
{
    if k == 0 {
        1
    } else {
        10 * spec_pow10((k - 1) as nat)
    }
}

proof fn lemma_pow10_bounds(k: nat)
    requires
        k <= 30,
    ensures
        1 <= spec_pow10(k) <= 1000000000000000000000000000000,
    decreases k,
{
    lemma_pow10_pos(k);
    lemma_pow10_monotone(k, 30);
    assert(spec_pow10(30) == 1000000000000000000000000000000) by {
        reveal_with_fuel(spec_pow10, 31);
    }
}

proof fn lemma_pow10_monotone(a: nat, b: nat)
    requires
        a <= b,
    ensures
        spec_pow10(a) <= spec_pow10(b),
    decreases b,
{
    if a < b {
        lemma_pow10_monotone(a, (b - 1) as nat);
        lemma_pow10_pos((b - 1) as nat);
    }
}

proof fn lemma_pow10_pos(k: nat)
    ensures
        spec_pow10(k) >= 1,
    decreases k,
{
    if k > 0 {
        lemma_pow10_pos((k - 1) as nat);
    }
}

fn pow10_u128(k: usize) -> (r: u128)
    requires
        k <= 30,
    ensures
        r == spec_pow10(k as nat),
    decreases k,
{
    if k == 0 {
        1
    } else {
        let rest = pow10_u128(k - 1);
        proof {
            lemma_pow10_bounds(k as nat);
        }
        10 * rest
    }
}

/// The last `width` digits of `n`, zero-padded on the left.
pub open spec fn spec_dec_pad(n: nat, width: nat) -> Seq<char>
    decreases width,
{
    if width == 0 {
        Seq::empty()
    } else {
        spec_dec_pad(n / 10, (width - 1) as nat).push(spec_digit_char(n % 10))
    }
}

fn pad_digits(n: u128, width: usize) -> (r: String)
    ensures
        r@ == spec_dec_pad(n as nat, width as nat),
    decreases width,
{
    if width == 0 {
        String::new()
    } else {
        let mut s = pad_digits(n / 10, width - 1);
        s.append(crate::strutil::digit_str((n % 10) as u8));
        assert(s@ =~= spec_dec_pad(n as nat, width as nat));
        s
    }
}

/// What the fixed-point renderer writes before trimming, for `n` scaled
/// by ten to the `idx`: nothing for zero; with fewer digits than `idx`
/// the bare digits (the point would lie left of them all and is never
/// written); with exactly `idx` digits a leading `0.`; otherwise the
/// whole part, the point and `idx` fraction digits.
pub open spec fn spec_fixed_point_untrimmed(n: nat, idx: nat) -> Seq<char> {
    if n == 0 {
        Seq::empty()
    } else if idx == 0 {
        spec_dec(n)
    } else if n >= spec_pow10(idx) {
        spec_dec((n as int / spec_pow10(idx)) as nat) + seq!['.'] + spec_dec_pad(
            (n as int % spec_pow10(idx)) as nat,
            idx,
        )
    } else if n >= spec_pow10((idx - 1) as nat) {
        seq!['0', '.'] + spec_dec_pad(n, idx)
    } else {
        spec_dec(n)
    }
}

/// `s` with every trailing `0`, and then a trailing `.`, removed.
pub open spec fn spec_trim_tail(s: Seq<char>) -> Seq<char>
    decreases s.len(),
{
    if s.len() == 0 {
        s
    } else if s.last() == '0' || s.last() == '.' {
        spec_trim_tail(s.drop_last())
    } else {
        s
    }
}

/// The fixed-point rendering of `n` scaled by ten to the `idx`, with
/// trailing zeros and a trailing point removed.
pub open spec fn spec_format_fixed_point(n: nat, idx: nat) -> Seq<char> {
    spec_trim_tail(spec_fixed_point_untrimmed(n, idx))
}

fn is_trim_char(s: &String, i: usize) -> (r: bool)
    requires
        i < s@.len(),
    ensures
        r == (s@[i as int] == '0' || s@[i as int] == '.'),
{
    let c = s.as_str().get_char(i);
    c == '0' || c == '.'
}

fn trim_tail(s: String) -> (r: String)
    ensures
        r@ == spec_trim_tail(s@),
{
    let len = s.as_str().unicode_len();
    let mut cut = len;
    proof {
        assert(s@.take(len as int) =~= s@);
    }
    while cut > 0 && is_trim_char(&s, cut - 1)
        invariant
            len == s@.len(),
            0 <= cut <= len,
            spec_trim_tail(s@) == spec_trim_tail(s@.take(cut as int)),
        decreases cut,
    {
        proof {
            assert(s@.take(cut as int).drop_last() =~= s@.take(cut - 1));
            assert(s@.take(cut as int).last() == s@[cut - 1]);
        }
        cut -= 1;
    }
    let out = s.as_str().substring_char(0, cut);
    proof {
        if cut > 0 {
            assert(s@.take(cut as int).last() == s@[cut - 1]);
        }
        assert(out@ =~= s@.take(cut as int));
    }
    String::from_str(out)
}

fn format_fixed_point(n: u128, decimal_idx: usize) -> (r: String)
    requires
        decimal_idx <= 30,
    ensures
        r@ == spec_format_fixed_point(n as nat, decimal_idx as nat),
{
    proof {
        reveal_strlit(".");
        reveal_strlit("0.");
    }
    if n == 0 {
        return String::new();
    }
    if decimal_idx == 0 {
        return trim_tail(u128_to_string(n));
    }
    let p = pow10_u128(decimal_idx);
    proof {
        lemma_pow10_pos(decimal_idx as nat);
    }
    if n >= p {
        let mut s = u128_to_string(n / p);
        s.append(".");
        let frac = pad_digits(n % p, decimal_idx);
        s.append(frac.as_str());
        proof {
            assert("."@ =~= seq!['.']);
            assert(s@ =~= spec_fixed_point_untrimmed(n as nat, decimal_idx as nat));
        }
        trim_tail(s)
    } else {
        let p1 = pow10_u128(decimal_idx - 1);
        if n >= p1 {
            let mut s = String::from_str("0.");
            let frac = pad_digits(n, decimal_idx);
            s.append(frac.as_str());
            proof {
                assert("0."@ =~= seq!['0', '.']);
                assert(s@ =~= spec_fixed_point_untrimmed(n as nat, decimal_idx as nat));
            }
            trim_tail(s)
        } else {
            trim_tail(u128_to_string(n))
        }
    }
}

/// The text rendering of a duration: whole hours and minutes first
/// (minutes also whenever hours show), then the remainder in the
/// largest unit that keeps it at least one: bare nanoseconds below a
/// microsecond, fractional micro- or milliseconds below a second, else
/// fractional seconds of the sub-minute remainder.
pub open spec fn spec_duration_text(d: FlyctlDuration) -> Seq<char> {
    if d.spec_nanos() == 0 {
        "0s"@
    } else {
        let hrs = d.secs as int / 3600;
        let mins = (d.secs as int % 3600) / 60;
        let prefix = (if hrs > 0 {
            spec_dec(hrs as nat) + "h"@
        } else {
            Seq::<char>::empty()
        }) + (if mins > 0 || hrs > 0 {
            spec_dec(mins as nat) + "m"@
        } else {
            Seq::<char>::empty()
        });
        let ns = d.spec_nanos();
        if ns < 1000 {
            prefix + spec_dec(ns as nat) + "ns"@
        } else if ns < 1000000 {
            prefix + spec_format_fixed_point(ns as nat, 3) + "µs"@
        } else if ns < 1000000000 {
            prefix + spec_format_fixed_point(ns as nat, 6) + "ms"@
        } else {
            prefix + spec_format_fixed_point(
                (ns - (d.secs as int / 60) * 60 * 1000000000) as nat,
                9,
            ) + "s"@
        }
    }
}

impl FlyctlDuration {
    /// Renders this duration as text such as "72h3m0.5s": whole hours
    /// and minutes, then the remainder in the largest unit that keeps
    /// it at least one, trailing zeros trimmed.
    pub fn to_string(&self) -> (r: String)
        requires
            self.wf(),
        ensures
            r@ == spec_duration_text(*self),
    {
        proof {
            reveal_strlit("0s");
        }
        let ns = self.as_nanos();
        if ns == 0 {
            return String::from_str("0s");
        }
        let hrs = self.secs / 3600;
        let mins = (self.secs % 3600) / 60;
        let mut sb = String::new();
        if hrs > 0 {
            let h = crate::strutil::u64_to_string(hrs);
            sb.append(h.as_str());
            sb.append("h");
        }
        if mins > 0 || hrs > 0 {
            let m = crate::strutil::u64_to_string(mins);
            sb.append(m.as_str());
            sb.append("m");
        }
        if ns < 1000 {
            let digits = u128_to_string(ns);
            sb.append(digits.as_str());
            sb.append("ns");
        } else if ns < 1000000 {
            let fixed = format_fixed_point(ns, 3);
            sb.append(fixed.as_str());
            sb.append("µs");
        } else if ns < 1000000000 {
            let fixed = format_fixed_point(ns, 6);
            sb.append(fixed.as_str());
            sb.append("ms");
        } else {
            let mins_as_secs = (self.secs / 60) * 60;
            proof {
                vstd::arithmetic::div_mod::lemma_fundamental_div_mod(self.secs as int, 60);
                assert((self.secs as int / 60) * 60 <= self.secs as int);
                assert((self.secs as u128) * (NANOS_PER_SEC as u128) >= (mins_as_secs as u128) * (
                NANOS_PER_SEC as u128)) by (nonlinear_arith)
                    requires
                        mins_as_secs <= self.secs,
                ;
            }
            let remainder = ns - (mins_as_secs as u128) * (NANOS_PER_SEC as u128);
            let fixed = format_fixed_point(remainder, 9);
            sb.append(fixed.as_str());
            sb.append("s");
        }
        assert(sb@ =~= spec_duration_text(*self));
        sb
    }
}


/// Whether `c` may appear in a number token: a digit or a point.
pub open spec fn spec_is_num_char(c: char) -> bool {
    spec_is_digit(c) || c == '.'
}

/// Length of the leading number token of `s`.
pub open spec fn spec_num_len(s: Seq<char>) -> nat
    decreases s.len(),
{
    if s.len() == 0 {
        0
    } else if spec_is_num_char(s[0]) {
        1 + spec_num_len(s.skip(1))
    } else {
        0
    }
}

/// The number token ends at the first character that cannot extend it.
proof fn lemma_num_len_at(s: Seq<char>, m: int)
    requires
        0 <= m <= s.len(),
        forall|j: int| 0 <= j < m ==> spec_is_num_char(#[trigger] s[j]),
        m == s.len() || !spec_is_num_char(s[m]),
    ensures
        spec_num_len(s) == m,
    decreases m,
{
    if s.len() == 0 {
    } else if m == 0 {
    } else {
        assert(forall|j: int| 0 <= j < m - 1 ==> s.skip(1)[j] == s[j + 1]);
        assert(m - 1 == s.skip(1).len() || s.skip(1)[m - 1] == s[m]);
        lemma_num_len_at(s.skip(1), m - 1);
    }
}

/// The value a number token denotes under the fixed-point reader, when
/// it is accepted and fits.
pub open spec fn spec_fp_component(num: Seq<char>, shift: nat) -> Option<int> {
    if spec_fixed_point_ok(num, shift) && spec_fixed_point_val(num, shift) <= u64::MAX {
        Some(spec_fixed_point_val(num, shift))
    } else {
        None
    }
}

/// The value of a whole-number token: all digits, nonempty, fitting.
pub open spec fn spec_int_component(num: Seq<char>) -> Option<int> {
    if num.len() > 0 && spec_all_digits(num) && spec_digits_val(num) <= u64::MAX {
        Some(spec_digits_val(num))
    } else {
        None
    }
}

/// What the duration grammar makes of `s`, in nanoseconds: a sequence
/// of number-unit components summed, where `ms`, `µs`/`us` and `ns`
/// read a fixed-point number, `s` reads fractional seconds, and bare
/// `m` and `h` read whole minutes and hours. Empty input, and a
/// trailing number with no unit, contribute nothing.
pub open spec fn spec_parse_duration_ns(s: Seq<char>) -> Option<int>
    decreases s.len(),
{
    if s.len() == 0 {
        Some(0)
    } else {
        let k = spec_num_len(s) as int;
        if k >= s.len() {
            Some(0)
        } else if k == 0 {
            None
        } else {
            let num = s.take(k);
            let c = s[k];
            let has_peek_s = k + 1 < s.len() && s[k + 1] == 's';
            if c == 'm' && has_peek_s {
                spec_opt_add2(spec_fp_component(num, 6), spec_parse_duration_ns(s.skip(k + 2)))
            } else if (c == 'µ' || c == 'u') && has_peek_s {
                spec_opt_add2(spec_fp_component(num, 3), spec_parse_duration_ns(s.skip(k + 2)))
            } else if c == 'n' && has_peek_s {
                spec_opt_add2(spec_fp_component(num, 0), spec_parse_duration_ns(s.skip(k + 2)))
            } else if c == 's' {
                spec_opt_add2(spec_fp_component(num, 9), spec_parse_duration_ns(s.skip(k + 1)))
            } else if c == 'm' {
                spec_opt_add2(
                    spec_opt_scale(spec_int_component(num), 60int * 1000000000),
                    spec_parse_duration_ns(s.skip(k + 1)),
                )
            } else if c == 'h' {
                spec_opt_add2(
                    spec_opt_scale(spec_int_component(num), 3600int * 1000000000),
                    spec_parse_duration_ns(s.skip(k + 1)),
                )
            } else {
                None
            }
        }
    }
}

/// The sum of two optional values; missing either way is missing.
pub open spec fn spec_opt_add2(a: Option<int>, b: Option<int>) -> Option<int> {
    match (a, b) {
        (Some(x), Some(y)) => Some(x + y),
        _ => None,
    }
}

/// An optional value scaled by a constant.
pub open spec fn spec_opt_scale(a: Option<int>, f: int) -> Option<int> {
    match a {
        Some(x) => Some(x * f),
        None => None,
    }
}

/// `o` with `a` added inside.
pub open spec fn spec_opt_add(a: int, o: Option<int>) -> Option<int> {
    match o {
        Some(v) => Some(a + v),
        None => None,
    }
}

/// The largest span a duration value can hold, in nanoseconds.
pub open spec fn spec_max_duration_ns() -> int {
    u64::MAX * (NANOS_PER_SEC as int) + (NANOS_PER_SEC - 1)
}

/// A parsed duration is never negative.
proof fn lemma_parse_duration_nonneg(s: Seq<char>)
    ensures
        spec_parse_duration_ns(s) matches Some(v) ==> v >= 0,
    decreases s.len(),
{
    if s.len() > 0 {
        let k = spec_num_len(s) as int;
        if 0 < k < s.len() {
            let num = s.take(k);
            if spec_fixed_point_ok(num, 0) {
                lemma_digits_val_nonneg(spec_fixed_point_digits(num, 0));
            }
            if spec_fixed_point_ok(num, 3) {
                lemma_digits_val_nonneg(spec_fixed_point_digits(num, 3));
            }
            if spec_fixed_point_ok(num, 6) {
                lemma_digits_val_nonneg(spec_fixed_point_digits(num, 6));
            }
            if spec_fixed_point_ok(num, 9) {
                lemma_digits_val_nonneg(spec_fixed_point_digits(num, 9));
            }
            if spec_all_digits(num) {
                lemma_digits_val_nonneg(num);
            }
            lemma_parse_duration_nonneg(s.skip(k + 1));
            if k + 2 <= s.len() {
                lemma_parse_duration_nonneg(s.skip(k + 2));
            }
        }
    }
}

fn is_num_char(c: char) -> (r: bool)
    ensures
        r == spec_is_num_char(c),
{
    (c >= '0' && c <= '9') || c == '.'
}

/// Reads a whole-number token: every character must be a digit and the
/// value must fit.
fn parse_u64_digits(num: &str) -> (r: Result<u64, InvalidDurationFormatError>)
    ensures
        match r {
            Ok(v) => spec_int_component(num@) == Some(v as int),
            Err(_) => spec_int_component(num@) is None,
        },
{
    let len = num.unicode_len();
    if len == 0 {
        return Err(InvalidDurationFormatError(String::from_str(num)));
    }
    let mut buf: u64 = 0;
    let mut i: usize = 0;
    while i < len
        invariant
            len == num@.len(),
            len > 0,
            0 <= i <= len,
            forall|j: int| 0 <= j < i ==> spec_is_digit(#[trigger] num@[j]),
            buf == spec_digits_val(num@.take(i as int)),
        decreases len - i,
    {
        let c = num.get_char(i);
        if !(c >= '0' && c <= '9') {
            return Err(InvalidDurationFormatError(String::from_str(num)));
        }
        let d = (c as u32 - 48) as u64;
        let grown = match buf.checked_mul(10) {
            Some(g) => g.checked_add(d),
            None => None,
        };
        buf = match grown {
            Some(g) => g,
            None => {
                proof {
                    if spec_all_digits(num@) {
                        lemma_overflow_rejects_at(num@, i as int, buf as int);
                    }
                }
                return Err(InvalidDurationFormatError(String::from_str(num)));
            },
        };
        proof {
            assert(num@.take(i + 1).drop_last() =~= num@.take(i as int));
            assert(num@.take(i + 1).last() == num@[i as int]);
        }
        i += 1;
    }
    proof {
        assert(num@.take(len as int) =~= num@);
    }
    Ok(buf)
}

impl FlyctlDuration {
    /// Parses duration text such as "37h12m0.5s": number-unit components
    /// summed, with `ms`, `µs`/`us`, `ns`, fractional `s`, and whole
    /// `m` and `h`. A trailing number with no unit is ignored. Rejects
    /// unknown units, a unit with no number, malformed numbers, and a
    /// span that does not fit.
    #[verifier::rlimit(100)]
    pub fn parse(s: &str) -> (r: Result<FlyctlDuration, InvalidDurationFormatError>)
        ensures
            match r {
                Ok(d) => d.wf() && spec_parse_duration_ns(s@) == Some(d.spec_nanos()),
                Err(_) => spec_parse_duration_ns(s@) is None || spec_parse_duration_ns(s@)->Some_0
                    > spec_max_duration_ns(),
            },
    {
        let len = s.unicode_len();
        let mut total: u128 = 0;
        let mut i: usize = 0;
        proof {
            assert(s@.skip(0) =~= s@);
        }
        while i < len
            invariant
                len == s@.len(),
                0 <= i <= len,
                total <= spec_max_duration_ns(),
                spec_parse_duration_ns(s@) == spec_opt_add(
                    total as int,
                    spec_parse_duration_ns(s@.skip(i as int)),
                ),
            ensures
                i == len,
            decreases len - i,
        {
            let ghost tail = s@.skip(i as int);
            let start = i;
            while i < len && is_num_char(s.get_char(i))
                invariant
                    len == s@.len(),
                    start <= i <= len,
                    forall|j: int| start <= j < i ==> spec_is_num_char(#[trigger] s@[j]),
                decreases len - i,
            {
                i += 1;
            }
            proof {
                assert(forall|j: int| 0 <= j < i - start ==> tail[j] == s@[j + start]);
                lemma_num_len_at(tail, i - start);
            }
            let ghost k = (i - start) as int;
            if i == len {
                // a trailing number with no unit contributes nothing
                proof {
                    assert(spec_parse_duration_ns(tail) == Some(0int));
                    assert(s@.skip(len as int) =~= Seq::<char>::empty());
                    assert(spec_parse_duration_ns(Seq::<char>::empty()) == Some(0int));
                }
                break;
            }
            if i == start {
                return Err(InvalidDurationFormatError(String::from_str(s)));
            }
            let num: &str = s.substring_char(start, i);
            proof {
                assert(num@ =~= tail.take(k));
                assert(tail[k] == s@[i as int]);
                if i + 1 < len {
                    assert(tail[k + 1] == s@[i + 1]);
                }
            }
            let c = s.get_char(i);
            let peek_s = i + 1 < len && s.get_char(i + 1) == 's';
            let component: u128;
            let consumed: usize;
            if c == 'm' && peek_s {
                match parse_fixed_point(num, 6) {
                    Ok(v) => {
                        component = v as u128;
                        consumed = i + 2;
                    },
                    Err(e) => {
                        return Err(e);
                    },
                }
            } else if (c == 'µ' || c == 'u') && peek_s {
                match parse_fixed_point(num, 3) {
                    Ok(v) => {
                        component = v as u128;
                        consumed = i + 2;
                    },
                    Err(e) => {
                        return Err(e);
                    },
                }
            } else if c == 'n' && peek_s {
                match parse_fixed_point(num, 0) {
                    Ok(v) => {
                        component = v as u128;
                        consumed = i + 2;
                    },
                    Err(e) => {
                        return Err(e);
                    },
                }
            } else if c == 's' {
                match parse_fixed_point(num, 9) {
                    Ok(v) => {
                        component = v as u128;
                        consumed = i + 1;
                    },
                    Err(e) => {
                        return Err(e);
                    },
                }
            } else if c == 'm' {
                match parse_u64_digits(num) {
                    Ok(v) => {
                        proof {
                            assert((v as int) * 60 * 1000000000 <= 0xffffffffffffffffint * 60
                                * 1000000000) by (nonlinear_arith)
                                requires
                                    v <= 0xffffffffffffffffu64,
                            ;
                        }
                        component = (v as u128) * 60 * 1000000000;
                        consumed = i + 1;
                    },
                    Err(e) => {
                        return Err(e);
                    },
                }
            } else if c == 'h' {
                match parse_u64_digits(num) {
                    Ok(v) => {
                        proof {
                            assert((v as int) * 3600 * 1000000000 <= 0xffffffffffffffffint * 3600
                                * 1000000000) by (nonlinear_arith)
                                requires
                                    v <= 0xffffffffffffffffu64,
                            ;
                        }
                        component = (v as u128) * 3600 * 1000000000;
                        consumed = i + 1;
                    },
                    Err(e) => {
                        return Err(e);
                    },
                }
            } else {
                return Err(InvalidDurationFormatError(String::from_str(s)));
            }
            proof {
                assert(s@.skip(consumed as int) =~= tail.skip(consumed - start));
                lemma_parse_duration_nonneg(s@.skip(consumed as int));
            }
            let grown = total + component;
            if grown > 0xffffffffffffffffu128 * 1000000000 + 999999999 {
                return Err(InvalidDurationFormatError(String::from_str(s)));
            }
            total = grown;
            i = consumed;
        }
        proof {
            assert(s@.skip(len as int) =~= Seq::<char>::empty());
            assert(spec_parse_duration_ns(Seq::<char>::empty()) == Some(0int));
            vstd::arithmetic::div_mod::lemma_fundamental_div_mod(total as int, 1000000000);
            vstd::arithmetic::div_mod::lemma_div_is_ordered(
                total as int,
                u64::MAX * 1000000000 + 999999999,
                1000000000,
            );
            assert((u64::MAX * 1000000000int + 999999999) / 1000000000int == u64::MAX);
        }
        let secs = (total / 1000000000) as u64;
        let nanos = (total % 1000000000) as u32;
        Ok(FlyctlDuration { secs, nanos })
    }
}

impl core::str::FromStr for FlyctlDuration {
    type Err = InvalidDurationFormatError;

    fn from_str(s: &str) -> (r: Result<FlyctlDuration, InvalidDurationFormatError>) {
        FlyctlDuration::parse(s)
    }
}

} // verus!
