//! Decimal numerals: what the standard parsers accept and what the
//! standard formatter produces, with the proof that the two agree.

use vstd::prelude::*;

verus! {

/// An ASCII decimal digit.
pub open spec fn is_digit(c: char) -> bool {
    c == '0' || c == '1' || c == '2' || c == '3' || c == '4' || c == '5' || c == '6' || c == '7'
        || c == '8' || c == '9'
}

/// The value of a decimal digit.
pub open spec fn digit_value(c: char) -> int {
    if c == '0' {
        0
    } else if c == '1' {
        1
    } else if c == '2' {
        2
    } else if c == '3' {
        3
    } else if c == '4' {
        4
    } else if c == '5' {
        5
    } else if c == '6' {
        6
    } else if c == '7' {
        7
    } else if c == '8' {
        8
    } else {
        9
    }
}

/// The digit that stands for `d`, for `d` below ten.
pub open spec fn digit_char(d: int) -> char {
    if d == 0 {
        '0'
    } else if d == 1 {
        '1'
    } else if d == 2 {
        '2'
    } else if d == 3 {
        '3'
    } else if d == 4 {
        '4'
    } else if d == 5 {
        '5'
    } else if d == 6 {
        '6'
    } else if d == 7 {
        '7'
    } else if d == 8 {
        '8'
    } else {
        '9'
    }
}

pub open spec fn all_digits(s: Seq<char>) -> bool {
    forall|i: int| 0 <= i < s.len() ==> is_digit(#[trigger] s[i])
}

/// The value of a string of digits, most significant first.
pub open spec fn digits_value(s: Seq<char>) -> int
    decreases s.len(),
{
    if s.len() == 0 {
        0
    } else {
        10 * digits_value(s.drop_last()) + digit_value(s.last())
    }
}

/// The integer that a decimal numeral denotes: an optional `+` or `-`
/// followed by one or more digits, and nothing else.
pub open spec fn decimal_value(s: Seq<char>) -> Option<int> {
    if s.len() > 0 && (s[0] == '+' || s[0] == '-') {
        let d = s.skip(1);
        if d.len() > 0 && all_digits(d) {
            Some(
                if s[0] == '-' {
                    -digits_value(d)
                } else {
                    digits_value(d)
                },
            )
        } else {
            None
        }
    } else if s.len() > 0 && all_digits(s) {
        Some(digits_value(s))
    } else {
        None
    }
}

/// What `i32::from_str` accepts: a decimal numeral whose value fits in `i32`.
pub open spec fn parse_i32_spec(s: Seq<char>) -> Option<i32> {
    match decimal_value(s) {
        Some(v) => if i32::MIN <= v <= i32::MAX {
            Some(v as i32)
        } else {
            None
        },
        None => None,
    }
}

/// What `u8::from_str` accepts: a decimal numeral without a minus sign
/// whose value fits in `u8`.
pub open spec fn parse_u8_spec(s: Seq<char>) -> Option<u8> {
    if s.len() > 0 && s[0] == '-' {
        None
    } else {
        match decimal_value(s) {
            Some(v) => if 0 <= v <= u8::MAX {
                Some(v as u8)
            } else {
                None
            },
            None => None,
        }
    }
}

/// The digits of a natural number, without leading zeros.
pub open spec fn digits_text(n: nat) -> Seq<char>
    decreases n,
{
    if n < 10 {
        seq![digit_char(n as int)]
    } else {
        digits_text(n / 10).push(digit_char((n % 10) as int))
    }
}

/// The canonical decimal form of an integer: a `-` for negative values,
/// then the digits.
pub open spec fn decimal_text(n: int) -> Seq<char> {
    if n < 0 {
        seq!['-'] + digits_text((-n) as nat)
    } else {
        digits_text(n as nat)
    }
}

/// Relies on `str::parse::<i32>` (`i32::from_str`): it accepts exactly an
/// optional sign followed by decimal digits whose value fits in `i32`.
#[verifier::external_body]
pub(crate) fn parse_i32(s: &str) -> (r: Option<i32>)
    ensures
        r == parse_i32_spec(s@),
{
    s.parse::<i32>().ok()
}

/// Relies on `str::parse::<u8>` (`u8::from_str`): it accepts exactly an
/// optional `+` followed by decimal digits whose value fits in `u8`.
#[verifier::external_body]
pub(crate) fn parse_u8(s: &str) -> (r: Option<u8>)
    ensures
        r == parse_u8_spec(s@),
{
    s.parse::<u8>().ok()
}

/// Relies on `i32`'s `Display` through `ToString::to_string`: the decimal
/// digits without leading zeros, after a `-` for negative values.
#[verifier::external_body]
pub(crate) fn i32_text(n: i32) -> (r: String)
    ensures
        r@ == decimal_text(n as int),
{
    n.to_string()
}

proof fn lemma_digit_char(d: int)
    requires
        0 <= d < 10,
    ensures
        is_digit(digit_char(d)),
        digit_value(digit_char(d)) == d,
{
}

proof fn lemma_digits_text(n: nat)
    ensures
        digits_text(n).len() > 0,
        all_digits(digits_text(n)),
        digits_value(digits_text(n)) == n,
    decreases n,
{
    if n < 10 {
        let s = digits_text(n);
        lemma_digit_char(n as int);
        assert(s.drop_last() =~= Seq::<char>::empty());
        assert(digits_value(s.drop_last()) == 0);
    } else {
        lemma_digits_text(n / 10);
        lemma_digit_char((n % 10) as int);
        let s = digits_text(n);
        assert(s.drop_last() =~= digits_text(n / 10));
        assert(s.last() == digit_char((n % 10) as int));
        assert(digits_value(s) == 10 * digits_value(s.drop_last()) + digit_value(s.last()));
        assert(n == 10 * (n / 10) + n % 10);
    }
}

/// Reading back the canonical decimal form of an integer gives that integer.
pub proof fn lemma_decimal_round_trip(n: int)
    ensures
        decimal_value(decimal_text(n)) == Some(n),
{
    if n < 0 {
        let d = digits_text((-n) as nat);
        lemma_digits_text((-n) as nat);
        let s = decimal_text(n);
        assert(s[0] == '-');
        assert(s.skip(1) =~= d);
    } else {
        lemma_digits_text(n as nat);
        let s = decimal_text(n);
        assert(is_digit(s[0]));
    }
}

/// Every `i32` written in its canonical decimal form parses back to itself.
pub proof fn lemma_i32_text_round_trip(n: i32)
    ensures
        parse_i32_spec(decimal_text(n as int)) == Some(n),
{
    lemma_decimal_round_trip(n as int);
}

/// Every `u8` written in its canonical decimal form parses back to itself.
pub proof fn lemma_u8_text_round_trip(n: u8)
    ensures
        parse_u8_spec(decimal_text(n as int)) == Some(n),
{
    lemma_decimal_round_trip(n as int);
    lemma_digits_text(n as nat);
    assert(is_digit(decimal_text(n as int)[0]));
}

/// The value of a hexadecimal digit, in either case.
pub open spec fn hex_digit_value(c: char) -> Option<int> {
    if '0' <= c && c <= '9' {
        Some(c as int - '0' as int)
    } else if 'a' <= c && c <= 'f' {
        Some(c as int - 'a' as int + 10)
    } else if 'A' <= c && c <= 'F' {
        Some(c as int - 'A' as int + 10)
    } else {
        None
    }
}

/// The value of a string of hexadecimal digits, most significant first.
pub open spec fn hex_digits_value(s: Seq<char>) -> Option<int>
    decreases s.len(),
{
    if s.len() == 0 {
        Some(0)
    } else {
        match (hex_digits_value(s.drop_last()), hex_digit_value(s.last())) {
            (Some(high), Some(low)) => Some(16 * high + low),
            _ => None,
        }
    }
}

/// What `i64::from_str_radix(_, 16)` accepts: an optional sign followed by
/// one or more hexadecimal digits, whose value fits in `i64`.
pub open spec fn parse_hex_i64_spec(s: Seq<char>) -> Option<i64> {
    let signed = s.len() > 0 && (s[0] == '+' || s[0] == '-');
    let digits = if signed {
        s.skip(1)
    } else {
        s
    };
    if digits.len() == 0 {
        None
    } else {
        match hex_digits_value(digits) {
            Some(v) => {
                let value = if signed && s[0] == '-' {
                    -v
                } else {
                    v
                };
                if i64::MIN <= value <= i64::MAX {
                    Some(value as i64)
                } else {
                    None
                }
            },
            None => None,
        }
    }
}

/// The uppercase hexadecimal digit that stands for `d`, for `d` below 16.
pub open spec fn hex_digit_char(d: int) -> char {
    if d < 10 {
        digit_char(d)
    } else if d == 10 {
        'A'
    } else if d == 11 {
        'B'
    } else if d == 12 {
        'C'
    } else if d == 13 {
        'D'
    } else if d == 14 {
        'E'
    } else {
        'F'
    }
}

/// The uppercase hexadecimal digits of a natural number, without leading
/// zeros.
pub open spec fn hex_digits_text(n: nat) -> Seq<char>
    decreases n,
{
    if n < 16 {
        seq![hex_digit_char(n as int)]
    } else {
        hex_digits_text(n / 16).push(hex_digit_char((n % 16) as int))
    }
}

/// `0x` and the uppercase hexadecimal digits of the value's 64-bit two's
/// complement, with zeros after the `0x` so that the whole is at least
/// `width` characters long.
pub open spec fn hex_text_spec(value: i64, width: nat) -> Seq<char> {
    let digits = hex_digits_text((value as u64) as nat);
    let zeros = if digits.len() + 2 < width {
        (width - digits.len() - 2) as nat
    } else {
        0
    };
    seq!['0', 'x'] + Seq::new(zeros, |i: int| '0') + digits
}

/// The width of the hexadecimal text shown for a value of `min_bytes`
/// digits: those digits and the `0x`; no padding for other sizes.
pub open spec fn hex_width_spec(min_bytes: i32) -> nat {
    if min_bytes == 2 || min_bytes == 4 || min_bytes == 8 || min_bytes == 16 {
        (min_bytes + 2) as nat
    } else {
        0
    }
}

/// Relies on `i64::from_str_radix` with radix 16: it accepts exactly an
/// optional sign followed by hexadecimal digits whose value fits in `i64`.
#[verifier::external_body]
pub(crate) fn parse_hex_i64(s: &str) -> (r: Option<i64>)
    ensures
        r == parse_hex_i64_spec(s@),
{
    i64::from_str_radix(s, 16).ok()
}

/// Relies on `str::strip_prefix`: the text after a leading `0x`, if any.
#[verifier::external_body]
pub(crate) fn strip_hex_prefix(s: &str) -> (r: Option<&str>)
    ensures
        r is Some <==> (s@.len() >= 2 && s@[0] == '0' && s@[1] == 'x'),
        r matches Some(t) ==> t@ == s@.skip(2),
{
    s.strip_prefix("0x")
}

/// Relies on `i64`'s `UpperHex` with the `#` flag, zero padding and a
/// width, through `format!`.
#[verifier::external_body]
pub(crate) fn format_hex(value: i64, width: usize) -> (r: String)
    ensures
        r@ == hex_text_spec(value, width as nat),
{
    format!("{:#0width$X}", value, width = width)
}

/// The text without every leading `0x`.
pub open spec fn strip_all_hex_prefixes(s: Seq<char>) -> Seq<char>
    decreases s.len(),
{
    if s.len() >= 2 && s[0] == '0' && s[1] == 'x' {
        strip_all_hex_prefixes(s.skip(2))
    } else {
        s
    }
}

/// A hexadecimal number typed in a text box: any number of leading `0x`
/// are dropped, and the rest must be a hexadecimal numeral that fits.
pub fn parse_hex(text: &str) -> (r: Option<i64>)
    ensures
        r == parse_hex_i64_spec(strip_all_hex_prefixes(text@)),
{
    let mut rest = text;
    loop
        invariant
            strip_all_hex_prefixes(rest@) == strip_all_hex_prefixes(text@),
        ensures
            rest@ == strip_all_hex_prefixes(text@),
        decreases rest@.len(),
    {
        match strip_hex_prefix(rest) {
            Some(t) => {
                rest = t;
            },
            None => {
                break ;
            },
        }
    }
    parse_hex_i64(rest)
}

/// A value shown in hexadecimal, padded for a value of `min_bytes` digits.
pub fn hex_text(value: i64, min_bytes: i32) -> (r: String)
    ensures
        r@ == hex_text_spec(value, hex_width_spec(min_bytes)),
{
    let width: usize = if min_bytes == 2 || min_bytes == 4 || min_bytes == 8 || min_bytes == 16 {
        (min_bytes + 2) as usize
    } else {
        0
    };
    format_hex(value, width)
}

proof fn lemma_hex_digit_char(d: int)
    requires
        0 <= d < 16,
    ensures
        hex_digit_value(hex_digit_char(d)) == Some(d),
{
    if d < 10 {
        lemma_digit_char(d);
    }
}

proof fn lemma_hex_digits_text(n: nat)
    ensures
        hex_digits_text(n).len() > 0,
        hex_digits_value(hex_digits_text(n)) == Some(n as int),
        forall|i: int| 0 <= i < hex_digits_text(n).len() ==> #[trigger] hex_digit_value(hex_digits_text(n)[i]) is Some,
    decreases n,
{
    let s = hex_digits_text(n);
    if n < 16 {
        lemma_hex_digit_char(n as int);
        assert(s.drop_last() =~= Seq::<char>::empty());
        assert(hex_digits_value(s.drop_last()) == Some(0int));
    } else {
        lemma_hex_digits_text(n / 16);
        lemma_hex_digit_char((n % 16) as int);
        assert(s.drop_last() =~= hex_digits_text(n / 16));
        assert(n as int == 16 * ((n / 16) as int) + (n % 16) as int);
    }
}

/// A run of `k` zeros.
pub open spec fn zeros(k: nat) -> Seq<char> {
    Seq::new(k, |i: int| '0')
}

proof fn lemma_zeros_value(k: nat)
    ensures
        hex_digits_value(zeros(k)) == Some(0int),
    decreases k,
{
    if k > 0 {
        lemma_zeros_value((k - 1) as nat);
        assert(zeros(k).drop_last() =~= zeros((k - 1) as nat));
    }
}

proof fn lemma_leading_zeros(k: nat, s: Seq<char>)
    ensures
        hex_digits_value(zeros(k) + s) == hex_digits_value(s),
    decreases s.len(),
{
    if s.len() == 0 {
        assert(zeros(k) + s =~= zeros(k));
        lemma_zeros_value(k);
    } else {
        lemma_leading_zeros(k, s.drop_last());
        assert((zeros(k) + s).drop_last() =~= zeros(k) + s.drop_last());
    }
}

/// A value shown in a hexadecimal box and read back unedited is kept: one
/// that is not negative reads back as itself, and a negative one, shown in
/// two's complement, does not fit and so leaves the value alone.
pub proof fn lemma_hex_text_read_back(v: i64, min_bytes: i32)
    ensures
        parse_hex_i64_spec(strip_all_hex_prefixes(hex_text_spec(v, hex_width_spec(min_bytes)))) == (if v >= 0 {
            Some(v)
        } else {
            None
        }),
{
    let n = (v as u64) as nat;
    let width = hex_width_spec(min_bytes);
    let d = hex_digits_text(n);
    let k: nat = if d.len() + 2 < width {
        (width - d.len() - 2) as nat
    } else {
        0
    };
    let text = hex_text_spec(v, width);
    let body = zeros(k) + d;
    lemma_hex_digits_text(n);
    lemma_leading_zeros(k, d);
    assert(text =~= seq!['0', 'x'] + body);
    assert(text.skip(2) =~= body);
    assert forall|i: int| 0 <= i < body.len() implies #[trigger] hex_digit_value(body[i]) is Some by {
        if i >= k {
            assert(body[i] == d[i - k]);
        }
    }
    assert(hex_digit_value(body[1]) is Some ==> body[1] != 'x');
    assert(strip_all_hex_prefixes(body) == body);
    assert(strip_all_hex_prefixes(text) == body);
    assert(hex_digit_value(body[0]) is Some ==> body[0] != '+' && body[0] != '-');
    if v >= 0 {
        assert(v >= 0i64 ==> (v as u64) <= 0x7fff_ffff_ffff_ffffu64) by (bit_vector);
        assert(n == v);
    } else {
        assert(v < 0i64 ==> (v as u64) >= 0x8000_0000_0000_0000u64) by (bit_vector);
    }
}

} // verus!
