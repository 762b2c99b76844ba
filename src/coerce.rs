//! Turning the loosely typed text of a configuration entry into a typed
//! field value. A missing or malformed value never fails: it falls back to
//! the field's default.

use vstd::prelude::*;
use crate::number::{
    decimal_text, decimal_value, i32_text, lemma_i32_text_round_trip, parse_i32, parse_i32_spec,
    parse_u8, parse_u8_spec,
};

verus! {

/// The text of an optional string.
pub open spec fn text_of(raw: Option<&str>) -> Option<Seq<char>> {
    match raw {
        Some(s) => Some(s@),
        None => None,
    }
}

/// The texts that stand for `true`: exactly `1` and `true`.
pub open spec fn is_true_text(s: Seq<char>) -> bool {
    s == "1"@ || s == "true"@
}

/// A boolean in the numeric form, `1` or `0`.
pub open spec fn bool_digit(b: bool) -> Seq<char> {
    if b {
        "1"@
    } else {
        "0"@
    }
}

/// A boolean in the textual form, `true` or `false`.
pub open spec fn bool_word(b: bool) -> Seq<char> {
    if b {
        "true"@
    } else {
        "false"@
    }
}

pub open spec fn coerce_bool_spec(raw: Option<Seq<char>>, default: bool) -> bool {
    match raw {
        Some(s) => is_true_text(s),
        None => default,
    }
}

pub open spec fn coerce_i32_spec(raw: Option<Seq<char>>, default: i32) -> i32 {
    match raw {
        Some(s) => match parse_i32_spec(s) {
            Some(v) => v,
            None => default,
        },
        None => default,
    }
}

pub open spec fn coerce_ordinal_spec(raw: Option<Seq<char>>) -> Option<u8> {
    match raw {
        Some(s) => parse_u8_spec(s),
        None => None,
    }
}

/// What a text box holding `text` makes of an integer that was `current`.
pub open spec fn edit_i32_spec(current: i32, text: Seq<char>) -> i32 {
    match parse_i32_spec(text) {
        Some(v) => v,
        None => if text.len() == 0 {
            0
        } else {
            current
        },
    }
}

pub(crate) fn same_text(s: &str, t: &str) -> (r: bool)
    ensures
        r == (s@ == t@),
{
    s.to_owned() == t.to_owned()
}

/// A boolean entry read from a document: absent gives `default`, and a
/// present value is true exactly when it is `1` or `true`.
pub fn coerce_bool(raw: Option<&str>, default: bool) -> (r: bool)
    ensures
        r == coerce_bool_spec(text_of(raw), default),
{
    match raw {
        Some(s) => same_text(s, "1") || same_text(s, "true"),
        None => default,
    }
}

/// An integer entry read from a document: a well-formed decimal numeral
/// gives its value, anything else, or nothing, gives `default`.
pub fn coerce_i32(raw: Option<&str>, default: i32) -> (r: i32)
    ensures
        r == coerce_i32_spec(text_of(raw), default),
{
    match raw {
        Some(s) => match parse_i32(s) {
            Some(v) => v,
            None => default,
        },
        None => default,
    }
}

/// The ordinal of an enumerated entry, if the entry is present and a
/// decimal numeral in `u8`'s range.
pub fn coerce_ordinal(raw: Option<&str>) -> (r: Option<u8>)
    ensures
        r == coerce_ordinal_spec(text_of(raw)),
{
    match raw {
        Some(s) => parse_u8(s),
        None => None,
    }
}

/// An integer edited in a text box: a well-formed numeral gives its value,
/// an empty box gives zero, and anything else keeps `current`.
pub fn edit_i32(current: i32, text: &str) -> (r: i32)
    ensures
        r == edit_i32_spec(current, text@),
{
    match parse_i32(text) {
        Some(v) => v,
        None => if text.is_empty() {
            0
        } else {
            current
        },
    }
}

/// A boolean written as `1` or `0`.
pub fn bool_digit_text(b: bool) -> (r: String)
    ensures
        r@ == bool_digit(b),
{
    if b {
        "1".to_owned()
    } else {
        "0".to_owned()
    }
}

/// A boolean written as `true` or `false`.
pub fn bool_word_text(b: bool) -> (r: String)
    ensures
        r@ == bool_word(b),
{
    if b {
        "true".to_owned()
    } else {
        "false".to_owned()
    }
}

/// An integer written in decimal.
pub fn int_text(n: i32) -> (r: String)
    ensures
        r@ == decimal_text(n as int),
{
    i32_text(n)
}

/// Booleans read back as written, in both forms.
pub proof fn lemma_bool_texts_read_back(b: bool, d: bool)
    ensures
        coerce_bool_spec(Some(bool_digit(b)), d) == b,
        coerce_bool_spec(Some(bool_word(b)), d) == b,
{
    reveal_strlit("0");
    reveal_strlit("1");
    reveal_strlit("true");
    reveal_strlit("false");
    assert("0"@[0] != "1"@[0]);
    assert("0"@.len() != "true"@.len());
    assert("false"@.len() != "1"@.len());
    assert("false"@.len() != "true"@.len());
}

/// A present boolean entry reads as true exactly when it is `1` or `true`;
/// so `0`, `false` and the empty text, like any other text, read as false.
pub proof fn lemma_bool_coercion(s: Seq<char>, default: bool)
    ensures
        coerce_bool_spec(Some(s), default) <==> (s == "1"@ || s == "true"@),
        !coerce_bool_spec(Some("0"@), default),
        !coerce_bool_spec(Some("false"@), default),
        !coerce_bool_spec(Some(Seq::<char>::empty()), default),
{
    reveal_strlit("0");
    reveal_strlit("1");
    reveal_strlit("true");
    reveal_strlit("false");
    assert("0"@[0] != "1"@[0]);
    assert("0"@.len() != "true"@.len());
    assert("false"@.len() != "1"@.len());
    assert("false"@.len() != "true"@.len());
}

/// An integer entry holding any `i32` in decimal reads as that integer; one
/// that is no decimal numeral, or a missing one, reads as the default.
pub proof fn lemma_int_coercion(n: i32, s: Seq<char>, default: i32)
    ensures
        coerce_i32_spec(Some(decimal_text(n as int)), default) == n,
        decimal_value(s) is None ==> coerce_i32_spec(Some(s), default) == default,
        coerce_i32_spec(None, default) == default,
{
    lemma_i32_text_round_trip(n);
}

} // verus!
