//! Decimal text: formatting integers into decimal strings and parsing
//! decimal literals into fixed-point atomic-unit counts, both specified
//! over character sequences.

use vstd::prelude::*;

verus! {

/// The numeric value of a decimal digit character, or 10 for any other
/// character.
pub open spec fn digit_val(c: char) -> nat {
    if c == '0' {
        0
    } else if c == '1' {
        1
    } else if c == '2' {
        2
    } else if c == '3' {
        3
    } else if c == '4' {
        4
    } else if c == '5' {
        5
    } else if c == '6' {
        6
    } else if c == '7' {
        7
    } else if c == '8' {
        8
    } else if c == '9' {
        9
    } else {
        10
    }
}

pub open spec fn is_digit(c: char) -> bool {
    digit_val(c) < 10
}

/// The decimal digit character for a value below ten.
pub open spec fn digit_char(d: nat) -> char {
    if d == 0 {
        '0'
    } else if d == 1 {
        '1'
    } else if d == 2 {
        '2'
    } else if d == 3 {
        '3'
    } else if d == 4 {
        '4'
    } else if d == 5 {
        '5'
    } else if d == 6 {
        '6'
    } else if d == 7 {
        '7'
    } else if d == 8 {
        '8'
    } else {
        '9'
    }
}

/// The decimal digits of `n`, most significant first, with no leading
/// zeros (a single '0' for zero).
pub open spec fn dec_digits(n: nat) -> Seq<char>
    decreases n,
{
    if n < 10 {
        seq![digit_char(n)]
    } else {
        dec_digits(n / 10).push(digit_char(n % 10))
    }
}

/// The `width` least-significant decimal digits of `n`, zero-padded on
/// the left.
pub open spec fn dec_padded(n: nat, width: nat) -> Seq<char>
    decreases width,
{
    if width == 0 {
        Seq::empty()
    } else {
        dec_padded(n / 10, (width - 1) as nat).push(digit_char(n % 10))
    }
}

/// A signed decimal literal: '-' before the digits of the magnitude.
pub open spec fn dec_signed(n: int) -> Seq<char> {
    if n < 0 {
        seq!['-'] + dec_digits((-n) as nat)
    } else {
        dec_digits(n as nat)
    }
}

/// One decimal digit as a string slice.
pub fn digit_str(d: u64) -> (r: &'static str)
    requires
        d < 10,
    ensures
        r@ == seq![digit_char(d as nat)],
{
    if d == 0 {
        proof {
            reveal_strlit("0");
            assert("0"@ =~= seq![digit_char(0)]);
        }
        "0"
    } else if d == 1 {
        proof {
            reveal_strlit("1");
            assert("1"@ =~= seq![digit_char(1)]);
        }
        "1"
    } else if d == 2 {
        proof {
            reveal_strlit("2");
            assert("2"@ =~= seq![digit_char(2)]);
        }
        "2"
    } else if d == 3 {
        proof {
            reveal_strlit("3");
            assert("3"@ =~= seq![digit_char(3)]);
        }
        "3"
    } else if d == 4 {
        proof {
            reveal_strlit("4");
            assert("4"@ =~= seq![digit_char(4)]);
        }
        "4"
    } else if d == 5 {
        proof {
            reveal_strlit("5");
            assert("5"@ =~= seq![digit_char(5)]);
        }
        "5"
    } else if d == 6 {
        proof {
            reveal_strlit("6");
            assert("6"@ =~= seq![digit_char(6)]);
        }
        "6"
    } else if d == 7 {
        proof {
            reveal_strlit("7");
            assert("7"@ =~= seq![digit_char(7)]);
        }
        "7"
    } else if d == 8 {
        proof {
            reveal_strlit("8");
            assert("8"@ =~= seq![digit_char(8)]);
        }
        "8"
    } else {
        proof {
            reveal_strlit("9");
            assert("9"@ =~= seq![digit_char(9)]);
        }
        "9"
    }
}

/// Append the decimal digits of `n` to `out`.
pub fn append_u64(out: &mut String, n: u64)
    ensures
        final(out)@ == old(out)@ + dec_digits(n as nat),
    decreases n,
{
    if n < 10 {
        out.append(digit_str(n));
        proof {
            assert(dec_digits(n as nat) =~= seq![digit_char(n as nat)]);
        }
    } else {
        append_u64(out, n / 10);
        out.append(digit_str(n % 10));
        proof {
            assert(old(out)@ + dec_digits((n / 10) as nat) + seq![digit_char((n % 10) as nat)]
                =~= old(out)@ + dec_digits(n as nat));
        }
    }
}

/// The decimal digits of `n` as a string.
pub fn fmt_u64(n: u64) -> (r: String)
    ensures
        r@ == dec_digits(n as nat),
{
    let mut out: String = String::new();
    append_u64(&mut out, n);
    proof {
        assert(Seq::<char>::empty() + dec_digits(n as nat) =~= dec_digits(n as nat));
    }
    out
}

/// Append the `width` least-significant decimal digits of `n`,
/// zero-padded on the left.
pub fn append_u64_padded(out: &mut String, n: u64, width: u32)
    ensures
        final(out)@ == old(out)@ + dec_padded(n as nat, width as nat),
    decreases width,
{
    if width == 0 {
        proof {
            assert(old(out)@ + dec_padded(n as nat, 0) =~= old(out)@);
        }
    } else {
        append_u64_padded(out, n / 10, width - 1);
        out.append(digit_str(n % 10));
        proof {
            assert(old(out)@ + dec_padded((n / 10) as nat, (width - 1) as nat)
                + seq![digit_char((n % 10) as nat)] =~= old(out)@ + dec_padded(
                n as nat,
                width as nat,
            ));
        }
    }
}

/// The decimal digits of a signed value as a string.
pub fn fmt_i64(n: i64) -> (r: String)
    ensures
        r@ == dec_signed(n as int),
{
    if n >= 0 {
        fmt_u64(n as u64)
    } else {
        let mag: u64 = (-(n as i128)) as u64;
        let mut out: String = String::new();
        proof {
            reveal_strlit("-");
        }
        out.append("-");
        append_u64(&mut out, mag);
        proof {
            assert("-"@ =~= seq!['-']);
            assert(Seq::<char>::empty() + "-"@ + dec_digits(mag as nat) =~= seq!['-']
                + dec_digits((-(n as int)) as nat));
        }
        out
    }
}

/// A duration in milliseconds written for people: days and hours,
/// hours and minutes, minutes and seconds, whole seconds, or raw
/// milliseconds, the finer unit omitted when it is zero.
pub open spec fn duration_text(ms: nat) -> Seq<char> {
    if ms >= 86_400_000 {
        let d = ms / 86_400_000;
        let h = (ms % 86_400_000) / 3_600_000;
        if h > 0 {
            dec_digits(d) + seq!['d', ' '] + dec_digits(h) + seq!['h']
        } else {
            dec_digits(d) + seq!['d']
        }
    } else if ms >= 3_600_000 {
        let h = ms / 3_600_000;
        let m = (ms % 3_600_000) / 60_000;
        if m > 0 {
            dec_digits(h) + seq!['h', ' '] + dec_digits(m) + seq!['m']
        } else {
            dec_digits(h) + seq!['h']
        }
    } else if ms >= 60_000 {
        let m = ms / 60_000;
        let s = (ms % 60_000) / 1000;
        if s > 0 {
            dec_digits(m) + seq!['m', ' '] + dec_digits(s) + seq!['s']
        } else {
            dec_digits(m) + seq!['m']
        }
    } else if ms >= 5000 {
        dec_digits(ms / 1000) + seq!['s']
    } else {
        dec_digits(ms) + seq!['m', 's']
    }
}

/// Format a duration in milliseconds for display.
pub fn format_duration_ms(diff_ms: u64) -> (r: String)
    ensures
        r@ == duration_text(diff_ms as nat),
{
    proof {
        reveal_strlit("d ");
        reveal_strlit("d");
        reveal_strlit("h ");
        reveal_strlit("h");
        reveal_strlit("m ");
        reveal_strlit("m");
        reveal_strlit("s");
        reveal_strlit("ms");
        assert("d "@ =~= seq!['d', ' ']);
        assert("d"@ =~= seq!['d']);
        assert("h "@ =~= seq!['h', ' ']);
        assert("h"@ =~= seq!['h']);
        assert("m "@ =~= seq!['m', ' ']);
        assert("m"@ =~= seq!['m']);
        assert("s"@ =~= seq!['s']);
        assert("ms"@ =~= seq!['m', 's']);
    }
    let mut out: String = String::new();
    if diff_ms >= 86_400_000 {
        let days: u64 = diff_ms / 86_400_000;
        let hours: u64 = (diff_ms % 86_400_000) / 3_600_000;
        append_u64(&mut out, days);
        if hours > 0 {
            out.append("d ");
            append_u64(&mut out, hours);
            out.append("h");
            proof {
                assert(out@ =~= duration_text(diff_ms as nat));
            }
        } else {
            out.append("d");
            proof {
                assert(out@ =~= duration_text(diff_ms as nat));
            }
        }
    } else if diff_ms >= 3_600_000 {
        let hours: u64 = diff_ms / 3_600_000;
        let mins: u64 = (diff_ms % 3_600_000) / 60_000;
        append_u64(&mut out, hours);
        if mins > 0 {
            out.append("h ");
            append_u64(&mut out, mins);
            out.append("m");
            proof {
                assert(out@ =~= duration_text(diff_ms as nat));
            }
        } else {
            out.append("h");
            proof {
                assert(out@ =~= duration_text(diff_ms as nat));
            }
        }
    } else if diff_ms >= 60_000 {
        let mins: u64 = diff_ms / 60_000;
        let secs: u64 = (diff_ms % 60_000) / 1000;
        append_u64(&mut out, mins);
        if secs > 0 {
            out.append("m ");
            append_u64(&mut out, secs);
            out.append("s");
            proof {
                assert(out@ =~= duration_text(diff_ms as nat));
            }
        } else {
            out.append("m");
            proof {
                assert(out@ =~= duration_text(diff_ms as nat));
            }
        }
    } else if diff_ms >= 5000 {
        append_u64(&mut out, diff_ms / 1000);
        out.append("s");
        proof {
            assert(out@ =~= duration_text(diff_ms as nat));
        }
    } else {
        append_u64(&mut out, diff_ms);
        out.append("ms");
        proof {
            assert(out@ =~= duration_text(diff_ms as nat));
        }
    }
    out
}

/// The six-bit code of position `i` in the legacy packed symbol
/// layout: ten codes per word, least-significant first.
pub open spec fn packed_code(d0: u64, d1: u64, i: nat) -> u64 {
    ((if i < 10 {
        d0
    } else {
        d1
    }) >> (((i % 10) * 6) as u64)) & 0x3F
}

/// The character a six-bit code stands for: digits, then upper-case
/// letters, then '_'; codes above 36 are invalid.
pub open spec fn packed_byte(v: u64) -> u8 {
    if v <= 9 {
        (48 + v) as u8
    } else if v <= 35 {
        (65 + v - 10) as u8
    } else {
        95
    }
}

/// Decode a symbol out of the legacy packed layout: `len` six-bit
/// codes across two words. None when the length exceeds twenty codes
/// or any code is invalid.
pub fn decode_packed_symbol(d0: u64, d1: u64, len: u8) -> (r: Option<String>)
    ensures
        r is Some ==> r->0@ == Seq::new(len as nat, |i: int| packed_byte(
            packed_code(d0, d1, i as nat),
        ) as char),
        len <= 20 && (forall|i: int|
            0 <= i < len ==> #[trigger] packed_code(d0, d1, i as nat) <= 36) ==> r is Some,
        r is None ==> len > 20 || exists|i: int|
            0 <= i < len && #[trigger] packed_code(d0, d1, i as nat) > 36,
{
    if len > 20 {
        return None;
    }
    let ghost target = Seq::new(len as nat, |i: int| packed_byte(
        packed_code(d0, d1, i as nat),
    ) as char);
    let mut out: String = String::new();
    let n: usize = len as usize;
    let mut i: usize = 0;
    while i < n
        invariant
            0 <= i <= n,
            n == len as int,
            n <= 20,
            target == Seq::new(len as nat, |k: int| packed_byte(
                packed_code(d0, d1, k as nat),
            ) as char),
            forall|k: int| 0 <= k < i ==> #[trigger] packed_code(d0, d1, k as nat) <= 36,
            out@ == target.take(i as int),
        decreases n - i,
    {
        let word: u64 = if i < 10 {
            d0
        } else {
            d1
        };
        let shift: u64 = ((i % 10) * 6) as u64;
        let v: u64 = (word >> shift) & 0x3F;
        proof {
            assert(v == packed_code(d0, d1, i as nat));
            assert(v <= 0x3F) by (bit_vector)
                requires
                    v == (word >> shift) & 0x3F,
            ;
        }
        if v > 36 {
            proof {
                assert(0 <= (i as int) && (i as int) < len as int && packed_code(
                    d0,
                    d1,
                    (i as int) as nat,
                ) > 36);
                assert(exists|k: int|
                    0 <= k < len && #[trigger] packed_code(d0, d1, k as nat) > 36) by {
                    let kw: int = i as int;
                    assert(0 <= kw && kw < len as int);
                    assert(packed_code(d0, d1, kw as nat) > 36);
                }
            }
            return None;
        }
        let b: u8 = if v <= 9 {
            (48 + v) as u8
        } else if v <= 35 {
            (65 + v - 10) as u8
        } else {
            95
        };
        push_char(&mut out, b as char);
        proof {
            assert(out@ =~= target.take(i + 1));
        }
        i = i + 1;
    }
    proof {
        assert(target.take(n as int) =~= target);
    }
    Some(out)
}

/// The value of a digit sequence read most-significant first.
pub open spec fn digits_to_nat(s: Seq<char>) -> nat
    decreases s.len(),
{
    if s.len() == 0 {
        0
    } else {
        10 * digits_to_nat(s.drop_last()) + digit_val(s.last())
    }
}

/// Whether every character of `s` is a decimal digit.
pub open spec fn all_digits(s: Seq<char>) -> bool {
    forall|i: int| 0 <= i < s.len() ==> is_digit(#[trigger] s[i])
}

/// Reading one more digit multiplies the value by ten and adds the digit.
pub proof fn lemma_digits_take_step(s: Seq<char>, i: int)
    requires
        0 <= i < s.len(),
    ensures
        digits_to_nat(s.take(i + 1)) == 10 * digits_to_nat(s.take(i)) + digit_val(s[i]),
{
    assert(s.take(i + 1).drop_last() =~= s.take(i));
    assert(s.take(i + 1).last() == s[i]);
}

/// A sequence of digits is bounded by ten to its length.
pub proof fn lemma_digits_to_nat_bound(s: Seq<char>)
    requires
        all_digits(s),
    ensures
        digits_to_nat(s) < crate::numeric::pow10(s.len()),
    decreases s.len(),
{
    if s.len() == 0 {
    } else {
        assert(all_digits(s.drop_last())) by {
            assert(forall|i: int|
                0 <= i < s.len() - 1 ==> s.drop_last()[i] == #[trigger] s[i]);
        }
        lemma_digits_to_nat_bound(s.drop_last());
        assert(is_digit(s.last()));
        assert(digits_to_nat(s) == 10 * digits_to_nat(s.drop_last()) + digit_val(s.last()));
    }
}

/// A longer prefix of digits never has a smaller value.
pub proof fn lemma_digits_prefix_monotone(s: Seq<char>, i: int, j: int)
    requires
        0 <= i <= j <= s.len(),
    ensures
        digits_to_nat(s.take(i)) <= digits_to_nat(s.take(j)),
    decreases j - i,
{
    if i < j {
        lemma_digits_prefix_monotone(s, i, j - 1);
        lemma_digits_take_step(s, j - 1);
    }
}


/// Index of the first occurrence of `c` in `s`, or the length when
/// there is none.
pub open spec fn first_occurrence(s: Seq<char>, c: char) -> nat
    decreases s.len(),
{
    if s.len() == 0 {
        0
    } else if s[0] == c {
        0
    } else {
        1 + first_occurrence(s.skip(1), c)
    }
}

/// `first_occurrence` is the least index holding `c`, or the length.
pub proof fn lemma_first_occurrence(s: Seq<char>, c: char)
    ensures
        first_occurrence(s, c) <= s.len(),
        first_occurrence(s, c) < s.len() ==> s[first_occurrence(s, c) as int] == c,
        forall|j: int| 0 <= j < first_occurrence(s, c) ==> s[j] != c,
    decreases s.len(),
{
    if s.len() == 0 {
    } else if s[0] == c {
    } else {
        lemma_first_occurrence(s.skip(1), c);
        assert forall|j: int| 0 <= j < first_occurrence(s, c) implies s[j] != c by {
            if j > 0 {
                assert(s[j] == s.skip(1)[j - 1]);
            }
        }
    }
}

/// Any index that is the least position of `c` (or the length when
/// `c` is absent) equals `first_occurrence`.
pub proof fn lemma_first_occurrence_unique(s: Seq<char>, c: char, d: int)
    requires
        0 <= d <= s.len(),
        d < s.len() ==> s[d] == c,
        forall|j: int| 0 <= j < d ==> s[j] != c,
    ensures
        d == first_occurrence(s, c),
{
    lemma_first_occurrence(s, c);
    let fo = first_occurrence(s, c) as int;
    if fo < d {
        assert(s[fo] != c);
    } else if d < fo {
        assert(s[d] != c);
    }
}

/// Index of the first '.' in `s`, or the length when there is none.
pub open spec fn first_dot(s: Seq<char>) -> nat {
    first_occurrence(s, '.')
}

/// The magnitude part of a decimal literal, without the sign.
pub open spec fn decimal_body(s: Seq<char>) -> Seq<char> {
    if s.len() > 0 && s[0] == '-' {
        s.skip(1)
    } else {
        s
    }
}

pub open spec fn decimal_is_negative(s: Seq<char>) -> bool {
    s.len() > 0 && s[0] == '-'
}

/// The digits before the dot.
pub open spec fn int_digits(s: Seq<char>) -> Seq<char> {
    decimal_body(s).take(first_dot(decimal_body(s)) as int)
}

/// The digits after the dot, empty when there is no dot.
pub open spec fn frac_digits(s: Seq<char>) -> Seq<char> {
    let b = decimal_body(s);
    if first_dot(b) < b.len() {
        b.skip(first_dot(b) as int + 1)
    } else {
        Seq::empty()
    }
}

/// A decimal literal: an optional '-', digits, at most one '.', and at
/// least one digit overall.
pub open spec fn is_decimal_lit(s: Seq<char>) -> bool {
    &&& all_digits(int_digits(s))
    &&& all_digits(frac_digits(s))
    &&& int_digits(s).len() + frac_digits(s).len() > 0
}

/// The fractional digits scaled to eight decimal places, rounded half
/// up on the ninth digit.
pub open spec fn frac_units(fr: Seq<char>) -> nat {
    if fr.len() <= 8 {
        digits_to_nat(fr) * crate::numeric::pow10((8 - fr.len()) as nat)
    } else {
        digits_to_nat(fr.take(8)) + if digit_val(fr[8]) >= 5 {
            1nat
        } else {
            0nat
        }
    }
}

/// The magnitude of a decimal literal in atomic units (10^-8).
pub open spec fn decimal_magnitude(s: Seq<char>) -> nat {
    digits_to_nat(int_digits(s)) * 100_000_000 + frac_units(frac_digits(s))
}

/// The signed value of a decimal literal in atomic units.
pub open spec fn decimal_units(s: Seq<char>) -> int {
    if decimal_is_negative(s) {
        -(decimal_magnitude(s) as int)
    } else {
        decimal_magnitude(s) as int
    }
}

/// Relies on String::push: appends exactly the one character.
#[verifier::external_body]
pub fn push_char(s: &mut String, c: char)
    ensures
        final(s)@ == old(s)@ + seq![c],
{
    s.push(c)
}

/// Character-wise string equality.
pub fn str_eq(a: &str, b: &str) -> (r: bool)
    ensures
        r == (a@ == b@),
{
    let n: usize = a.unicode_len();
    let m: usize = b.unicode_len();
    if n != m {
        return false;
    }
    let mut i: usize = 0;
    while i < n
        invariant
            0 <= i <= n,
            n == a@.len(),
            n == b@.len(),
            forall|k: int| 0 <= k < i ==> a@[k] == b@[k],
        decreases n - i,
    {
        if a.get_char(i) != b.get_char(i) {
            return false;
        }
        i = i + 1;
    }
    proof {
        assert(a@ =~= b@);
    }
    true
}

/// Whether the text holds the character anywhere.
pub fn str_contains_char(s: &str, c: char) -> (r: bool)
    ensures
        r == exists|i: int| 0 <= i < s@.len() && s@[i] == c,
{
    let n: usize = s.unicode_len();
    let mut i: usize = 0;
    while i < n
        invariant
            0 <= i <= n,
            n == s@.len(),
            forall|k: int| 0 <= k < i ==> s@[k] != c,
        decreases n - i,
    {
        if s.get_char(i) == c {
            return true;
        }
        i = i + 1;
    }
    false
}

/// The numeric value of one character, 10 when it is not a digit.
pub fn digit_of(c: char) -> (r: u64)
    ensures
        r == digit_val(c),
{
    if c == '0' {
        0
    } else if c == '1' {
        1
    } else if c == '2' {
        2
    } else if c == '3' {
        3
    } else if c == '4' {
        4
    } else if c == '5' {
        5
    } else if c == '6' {
        6
    } else if c == '7' {
        7
    } else if c == '8' {
        8
    } else if c == '9' {
        9
    } else {
        10
    }
}

/// Parse an unsigned decimal integer. None when the text is empty,
/// holds a non-digit, or the value does not fit a u64.
pub fn parse_u64(s: &str) -> (r: Option<u64>)
    ensures
        r is Some <==> s@.len() > 0 && all_digits(s@) && digits_to_nat(s@) <= u64::MAX,
        r is Some ==> r->0 == digits_to_nat(s@),
{
    let n: usize = s.unicode_len();
    if n == 0 {
        return None;
    }
    let mut i: usize = 0;
    let mut acc: u64 = 0;
    while i < n
        invariant
            0 <= i <= n,
            n == s@.len(),
            all_digits(s@.take(i as int)),
            acc == digits_to_nat(s@.take(i as int)),
        decreases n - i,
    {
        let c: char = s.get_char(i);
        let d: u64 = digit_of(c);
        if d >= 10 {
            return None;
        }
        proof {
            lemma_digits_take_step(s@, i as int);
        }
        let next: Option<u64> = match acc.checked_mul(10) {
            Some(t) => t.checked_add(d),
            None => None,
        };
        match next {
            Some(v) => {
                acc = v;
            },
            None => {
                proof {
                    lemma_digits_prefix_monotone(s@, i + 1, s@.len() as int);
                    assert(s@.take(s@.len() as int) =~= s@);
                }
                return None;
            },
        }
        i = i + 1;
    }
    proof {
        assert(s@.take(n as int) =~= s@);
    }
    Some(acc)
}

/// An integer magnitude beyond u64 is beyond the atomic-unit range.
proof fn lemma_magnitude_overflow(s: Seq<char>, k: int)
    requires
        0 <= k <= int_digits(s).len(),
        digits_to_nat(int_digits(s).take(k)) > u64::MAX,
    ensures
        decimal_magnitude(s) > i64::MAX,
{
    let id = int_digits(s);
    lemma_digits_prefix_monotone(id, k, id.len() as int);
    assert(id.take(id.len() as int) =~= id);
    let iv = digits_to_nat(id);
    assert(iv * 100_000_000 >= iv * 1) by (nonlinear_arith)
        requires
            iv >= 0,
    ;
    assert(iv * 1 == iv) by (nonlinear_arith);
}

/// Parse a decimal literal ("123", "-0.05", "42.") into a signed count
/// of atomic units (10^-8), exact up to eight fractional digits and
/// rounded half up on the ninth. None when the text is not a decimal
/// literal or the magnitude does not fit.
pub fn parse_decimal_units(s: &str) -> (r: Option<i64>)
    ensures
        r is Some <==> is_decimal_lit(s@) && decimal_magnitude(s@) <= i64::MAX,
        r is Some ==> r->0 == decimal_units(s@),
{
    let n: usize = s.unicode_len();
    let neg: bool = n > 0 && s.get_char(0) == '-';
    let start: usize = if neg {
        1
    } else {
        0
    };
    let ghost b = decimal_body(s@);
    proof {
        assert(b.len() == n - start);
        assert(forall|j: int| 0 <= j < b.len() ==> b[j] == s@[j + start]);
    }

    // Integer part: digits up to the dot or the end.
    let mut i: usize = start;
    let mut acc: u64 = 0;
    while i < n && s.get_char(i) != '.'
        invariant
            start <= i <= n,
            n == s@.len(),
            start == if neg {
                1int
            } else {
                0int
            },
            b == decimal_body(s@),
            b.len() == n - start,
            forall|j: int| 0 <= j < b.len() ==> b[j] == s@[j + start],
            all_digits(b.take(i - start)),
            forall|j: int| 0 <= j < i - start ==> b[j] != '.',
            acc == digits_to_nat(b.take(i - start)),
        decreases n - i,
    {
        let c: char = s.get_char(i);
        let d: u64 = digit_of(c);
        proof {
            assert(b[i - start] == c);
        }
        if d >= 10 {
            // Not a digit: the integer part is malformed.
            proof {
                lemma_first_occurrence(b, '.');
                if first_dot(b) > i - start {
                    assert(int_digits(s@)[i - start] == c);
                    assert(!is_digit(c));
                } else {
                    assert(first_dot(b) < i - start + 1);
                    assert(b[first_dot(b) as int] == '.');
                    assert(first_dot(b) < i - start ==> b[first_dot(b) as int] != '.');
                    assert(first_dot(b) == i - start);
                    assert(c == '.');
                    assert(false);
                }
            }
            return None;
        }
        proof {
            lemma_digits_take_step(b, i - start);
        }
        let next: Option<u64> = match acc.checked_mul(10) {
            Some(t) => t.checked_add(d),
            None => None,
        };
        match next {
            Some(v) => {
                acc = v;
            },
            None => {
                // The integer part alone exceeds the representable range.
                proof {
                    lemma_first_occurrence(b, '.');
                    assert(first_dot(b) >= i + 1 - start) by {
                        if first_dot(b) < i + 1 - start {
                            assert(b[first_dot(b) as int] == '.');
                            if first_dot(b) < i - start {
                                assert(false);
                            } else {
                                assert(b[i - start] == c && c != '.');
                                assert(false);
                            }
                        }
                    }
                    assert(int_digits(s@).take(i + 1 - start) =~= b.take(i + 1 - start));
                    assert(digits_to_nat(b.take(i + 1 - start)) > u64::MAX);
                    lemma_magnitude_overflow(s@, i + 1 - start);
                }
                return None;
            },
        }
        i = i + 1;
    }

    // Here the scan sits at the dot or at the end of the text.
    let dot_at: usize = i;
    proof {
        lemma_first_occurrence_unique(b, '.', i - start);
        assert(int_digits(s@) =~= b.take(i - start));
    }

    let mut fr: u64 = 0;
    let mut roundup: bool = false;
    let ghost fstart = if dot_at < n {
        dot_at + 1
    } else {
        dot_at as int
    };
    let ghost fd = frac_digits(s@);
    proof {
        if dot_at < n {
            assert(fd =~= b.skip(i + 1 - start));
        } else {
            assert(fd =~= Seq::<char>::empty());
        }
        assert(fd.len() == n - fstart);
        assert(forall|j: int| 0 <= j < fd.len() ==> fd[j] == s@[j + fstart]);
    }

    if dot_at < n {
        i = i + 1;
    }
    let frac_begin: usize = i;
    while i < n
        invariant
            frac_begin <= i <= n,
            n == s@.len(),
            fstart == frac_begin,
            fd == frac_digits(s@),
            fd.len() == n - fstart,
            forall|j: int| 0 <= j < fd.len() ==> fd[j] == s@[j + fstart],
            all_digits(fd.take(i - frac_begin)),
            fr == digits_to_nat(fd.take(vstd::math::min(i - frac_begin, 8))),
            fr < crate::numeric::pow10(vstd::math::min(i - frac_begin, 8) as nat),
            roundup == (i - frac_begin > 8 && digit_val(fd[8]) >= 5),
            neg == decimal_is_negative(s@),
            start <= dot_at,
            acc == digits_to_nat(int_digits(s@)),
            all_digits(int_digits(s@)),
            int_digits(s@).len() == dot_at - start,
        decreases n - i,
    {
        let c: char = s.get_char(i);
        let d: u64 = digit_of(c);
        proof {
            assert(fd[i - frac_begin] == c);
        }
        if d >= 10 {
            proof {
                assert(frac_digits(s@)[i - frac_begin] == c);
                assert(!is_digit(c));
            }
            return None;
        }
        let j: usize = i - frac_begin;
        if j < 8 {
            proof {
                lemma_digits_take_step(fd, j as int);
                assert(fd.take(j as int) =~= fd.take(vstd::math::min(j as int, 8)));
                lemma_digits_to_nat_bound(fd.take(j + 1));
                assert(all_digits(fd.take(j + 1))) by {
                    assert(forall|k: int|
                        0 <= k < j + 1 ==> fd.take(j + 1)[k] == #[trigger] fd[k]);
                }
                crate::numeric::lemma_pow10_monotone((j + 1) as nat, 8);
                crate::numeric::lemma_pow10_values();
            }
            fr = fr * 10 + d;
            proof {
                assert(fd.take(j + 1) =~= fd.take(vstd::math::min(j + 1, 8)));
            }
        } else if j == 8 {
            roundup = d >= 5;
            proof {
                assert(fd.take(vstd::math::min(j as int, 8)) =~= fd.take(
                    vstd::math::min(j + 1, 8),
                ));
            }
        } else {
            proof {
                assert(fd.take(vstd::math::min(j as int, 8)) =~= fd.take(
                    vstd::math::min(j + 1, 8),
                ));
            }
        }
        i = i + 1;
    }

    let frac_len: usize = n - frac_begin;
    if dot_at == start && frac_len == 0 {
        // No digit at all.
        proof {
            assert(int_digits(s@).len() == 0);
            assert(frac_digits(s@).len() == 0);
        }
        return None;
    }

    // Scale the fraction to eight decimal places.
    let frv: u64 = if frac_len >= 8 {
        proof {
            assert(fd.take(vstd::math::min(fd.len() as int, 8)) =~= fd.take(8));
            crate::numeric::lemma_pow10_values();
        }
        if roundup {
            fr + 1
        } else {
            fr
        }
    } else {
        proof {
            assert(fd.take(vstd::math::min(fd.len() as int, 8)) =~= fd);
            crate::numeric::lemma_pow10_values();
            crate::numeric::lemma_pow10_monotone(fd.len(), 8);
            crate::numeric::lemma_pow10_mul(fd.len(), (8 - fd.len()) as nat);
            let scale = crate::numeric::pow10((8 - fd.len()) as nat);
            assert(digits_to_nat(fd) * scale + scale <= crate::numeric::pow10(8)) by (nonlinear_arith)
                requires
                    digits_to_nat(fd) < crate::numeric::pow10(fd.len()),
                    scale == crate::numeric::pow10((8 - fd.len()) as nat),
                    crate::numeric::pow10(fd.len()) * scale == crate::numeric::pow10(8),
            ;
        }
        fr * (crate::numeric::pow10_i64((8 - frac_len) as u32) as u64)
    };

    proof {
        assert(fd.take(n - frac_begin) =~= fd);
        assert(all_digits(fd));
        crate::numeric::lemma_pow10_values();
        if fd.len() == 8 {
            assert(fd.take(vstd::math::min(fd.len() as int, 8)) =~= fd);
            assert(frac_units(fd) == digits_to_nat(fd) * 1);
            assert(digits_to_nat(fd) * 1 == digits_to_nat(fd)) by (nonlinear_arith);
        }
        assert(frv == frac_units(fd));
    }

    // Combine in 128 bits, then range-check against the atomic range.
    let mag: u128 = {
        proof {
            assert((acc as u128) * 100_000_000 <= (u64::MAX as u128) * 100_000_000)
                by (nonlinear_arith)
                requires
                    acc as u128 <= u64::MAX as u128,
            ;
        }
        (acc as u128) * 100_000_000u128 + (frv as u128)
    };
    if mag > i64::MAX as u128 {
        return None;
    }
    let mi: i64 = mag as i64;
    if neg {
        Some(-mi)
    } else {
        Some(mi)
    }
}

} // verus!
