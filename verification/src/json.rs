//! The text encoding that every answer of the bridge is written in: JSON.
//!
//! Numbers with a fraction, and whatever the engine hands out, are put into
//! text by `serde_json`; those calls are believed. Whole numbers, booleans
//! and the framing of the bridge's own records are written and proved here.
//!
//! Of the texts of `serde_json` two things are believed beside their names:
//! there is one for every value that the bridge gives it, and no zero byte
//! stands in it. Its serializer fails where a writer fails, where a map has
//! a key that is no string, and where a value's own way of writing itself
//! fails; it writes into memory here, and a number, a string, a JSON value
//! and the engine's records of numbers do none of these. It writes the
//! characters below the space inside a string as escapes, and nothing else
//! but ASCII outside of one.
//!
//! What stands alone in an answer is written by `serde_json::to_string`.
//! What becomes a field of a larger record is first made a JSON value by
//! `serde_json::to_value`, so that a field that cannot be made one is left
//! out as `null` and does not spoil the record.

use vstd::prelude::*;
use vstd::string::*;
use crate::boundary::{lemma_nul_free_concat, lemma_plain_is_nul_free, nul_free, plain};

verus! {

/// A JSON value of `serde_json`.
#[verifier::external_type_specification]
#[verifier::external_body]
pub struct ExValue(serde_json::Value);

/// The text that `serde_json::to_string` writes for a JSON value, if it
/// writes one.
pub uninterp spec fn json_text(value: serde_json::Value) -> Option<Seq<char>>;

/// The text that `serde_json::to_string` writes for a string: the string in
/// double quotes, with escapes where JSON asks for them.
pub uninterp spec fn json_string(text: Seq<char>) -> Option<Seq<char>>;

/// The text that `serde_json::to_string` writes for a depth, if it writes
/// one.
pub uninterp spec fn depth_json(depth: dive_deco::Depth) -> Option<Seq<char>>;

/// The text that `serde_json::to_string` writes for a gas, if it writes one.
pub uninterp spec fn gas_json(gas: dive_deco::Gas) -> Option<Seq<char>>;

/// The text that `serde_json::to_string` writes for the number of metres in
/// a depth, if it writes one.
pub uninterp spec fn metres_json(depth: dive_deco::Depth) -> Option<Seq<char>>;

/// The text that `serde_json::to_string` writes for a time, if it writes
/// one.
pub uninterp spec fn time_json(time: dive_deco::Time) -> Option<Seq<char>>;

/// The text that `serde_json::to_string` writes for a supersaturation, if it
/// writes one.
pub uninterp spec fn supersaturation_json(pair: dive_deco::Supersaturation) -> Option<Seq<char>>;

/// The JSON value that `serde_json::to_value` makes of a time, if it makes
/// one.
pub uninterp spec fn time_value_json(time: dive_deco::Time) -> Option<serde_json::Value>;

/// The JSON value that `serde_json::to_value` makes of a depth, if it makes
/// one.
pub uninterp spec fn depth_value_json(depth: dive_deco::Depth) -> Option<serde_json::Value>;

/// The JSON value that `serde_json::to_value` makes of a supersaturation, if
/// it makes one.
pub uninterp spec fn pair_value_json(pair: dive_deco::Supersaturation) -> Option<serde_json::Value>;

/// The JSON value that `serde_json::to_value` makes of a schedule, or the
/// text that `Display` writes for its failure to make one.
pub uninterp spec fn runtime_json(runtime: dive_deco::DecoRuntime) -> Result<serde_json::Value, Seq<char>>;

/// What was said of the decompression: a schedule as a JSON value, or a
/// message.
pub open spec fn outcome_view(outcome: Result<serde_json::Value, String>) -> Result<
    serde_json::Value,
    Seq<char>,
> {
    match outcome {
        Ok(schedule) => Ok(schedule),
        Err(message) => Err(message@),
    }
}

/// The view of a text that may be missing.
pub open spec fn text_of(text: Option<String>) -> Option<Seq<char>> {
    match text {
        Some(string) => Some(string@),
        None => None,
    }
}

/// Calls `serde_json::to_string` on a JSON value.
#[verifier::external_body]
pub(crate) fn value_text(value: &serde_json::Value) -> (text: Option<String>)
    ensures
        text_of(text) == json_text(*value),
        text is Some,
        nul_free(text->0@),
{
    serde_json::to_string(value).ok()
}

/// Calls `serde_json::to_string` on a string.
#[verifier::external_body]
pub(crate) fn string_text(unquoted: &str) -> (text: Option<String>)
    ensures
        text_of(text) == json_string(unquoted@),
        text is Some,
        nul_free(text->0@),
{
    serde_json::to_string(unquoted).ok()
}

/// Calls `serde_json::to_string` on a depth.
#[verifier::external_body]
pub(crate) fn depth_text(depth: &dive_deco::Depth) -> (text: Option<String>)
    ensures
        text_of(text) == depth_json(*depth),
        text is Some,
        nul_free(text->0@),
{
    serde_json::to_string(depth).ok()
}

/// Calls `serde_json::to_string` on a gas.
#[verifier::external_body]
pub(crate) fn gas_text(gas: &dive_deco::Gas) -> (text: Option<String>)
    ensures
        text_of(text) == gas_json(*gas),
        text is Some,
        nul_free(text->0@),
{
    serde_json::to_string(gas).ok()
}

/// Calls `serde_json::to_string` on what `Depth::as_meters` reads out of a
/// depth.
#[verifier::external_body]
pub(crate) fn metres_text(depth: &dive_deco::Depth) -> (text: Option<String>)
    ensures
        text_of(text) == metres_json(*depth),
        text is Some,
        nul_free(text->0@),
{
    serde_json::to_string(&depth.as_meters()).ok()
}

/// Calls `serde_json::to_string` on a time.
#[verifier::external_body]
pub(crate) fn time_text(time: &dive_deco::Time) -> (text: Option<String>)
    ensures
        text_of(text) == time_json(*time),
        text is Some,
        nul_free(text->0@),
{
    serde_json::to_string(time).ok()
}

/// Calls `serde_json::to_string` on a supersaturation.
#[verifier::external_body]
pub(crate) fn supersaturation_text(
    supersaturation: &dive_deco::Supersaturation,
) -> (text: Option<String>)
    ensures
        text_of(text) == supersaturation_json(*supersaturation),
        text is Some,
        nul_free(text->0@),
{
    serde_json::to_string(supersaturation).ok()
}

/// Calls `serde_json::to_value` on a time.
#[verifier::external_body]
pub(crate) fn time_value(time: &dive_deco::Time) -> (value: Option<serde_json::Value>)
    ensures
        value == time_value_json(*time),
{
    serde_json::to_value(time).ok()
}

/// Calls `serde_json::to_value` on a depth.
#[verifier::external_body]
pub(crate) fn depth_value(depth: &dive_deco::Depth) -> (value: Option<serde_json::Value>)
    ensures
        value == depth_value_json(*depth),
{
    serde_json::to_value(depth).ok()
}

/// Calls `serde_json::to_value` on a supersaturation.
#[verifier::external_body]
pub(crate) fn supersaturation_value(
    supersaturation: &dive_deco::Supersaturation,
) -> (value: Option<serde_json::Value>)
    ensures
        value == pair_value_json(*supersaturation),
{
    serde_json::to_value(supersaturation).ok()
}

/// Calls `serde_json::to_value` on a schedule, and writes a failure by its
/// `Display`.
#[verifier::external_body]
pub(crate) fn runtime_value(
    runtime: &dive_deco::DecoRuntime,
) -> (value: Result<serde_json::Value, String>)
    ensures
        outcome_view(value) == runtime_json(*runtime),
{
    serde_json::to_value(runtime).map_err(|unwritten| unwritten.to_string())
}

/// The text of a value that may be absent: `null` in its place.
pub open spec fn optional_text(leaf: Option<serde_json::Value>) -> Option<Seq<char>> {
    match leaf {
        Some(value) => json_text(value),
        None => Some("null"@),
    }
}

/// The text of a boolean.
pub open spec fn json_bool(flag: bool) -> Seq<char> {
    if flag {
        "true"@
    } else {
        "false"@
    }
}

/// The character of one decimal digit.
pub open spec fn digit_char(digit: int) -> char {
    if digit == 0 {
        '0'
    } else if digit == 1 {
        '1'
    } else if digit == 2 {
        '2'
    } else if digit == 3 {
        '3'
    } else if digit == 4 {
        '4'
    } else if digit == 5 {
        '5'
    } else if digit == 6 {
        '6'
    } else if digit == 7 {
        '7'
    } else if digit == 8 {
        '8'
    } else {
        '9'
    }
}

/// The decimal digits of a natural number, without leading zeros.
pub open spec fn digits(n: nat) -> Seq<char>
    decreases n,
{
    if n < 10 {
        seq![digit_char(n as int)]
    } else {
        digits(n / 10).push(digit_char((n % 10) as int))
    }
}

/// The text of a whole number: a minus sign where it is negative, then its
/// digits.
pub open spec fn decimal(n: int) -> Seq<char> {
    if n < 0 {
        seq!['-'] + digits((-n) as nat)
    } else {
        digits(n as nat)
    }
}

/// The digits of a number are plain.
pub proof fn lemma_digits_are_plain(n: nat)
    ensures
        plain(digits(n)),
    decreases n,
{
    if n >= 10 {
        lemma_digits_are_plain(n / 10);
    }
}

/// The text of a whole number is plain.
pub proof fn lemma_decimal_is_plain(n: int)
    ensures
        plain(decimal(n)),
{
    if n < 0 {
        lemma_digits_are_plain((-n) as nat);
    } else {
        lemma_digits_are_plain(n as nat);
    }
}

/// The text of a boolean is plain.
pub proof fn lemma_bool_is_plain(flag: bool)
    ensures
        plain(json_bool(flag)),
{
    reveal_strlit("true");
    reveal_strlit("false");
}

/// One digit as a string.
fn digit_text(digit: u64) -> (text: &'static str)
    requires
        digit < 10,
    ensures
        text@ == seq![digit_char(digit as int)],
{
    proof {
        reveal_strlit("0");
        reveal_strlit("1");
        reveal_strlit("2");
        reveal_strlit("3");
        reveal_strlit("4");
        reveal_strlit("5");
        reveal_strlit("6");
        reveal_strlit("7");
        reveal_strlit("8");
        reveal_strlit("9");
    }
    if digit == 0 {
        "0"
    } else if digit == 1 {
        "1"
    } else if digit == 2 {
        "2"
    } else if digit == 3 {
        "3"
    } else if digit == 4 {
        "4"
    } else if digit == 5 {
        "5"
    } else if digit == 6 {
        "6"
    } else if digit == 7 {
        "7"
    } else if digit == 8 {
        "8"
    } else {
        "9"
    }
}

/// Appends the digits of a natural number.
fn push_digits(out: &mut String, n: u64)
    ensures
        final(out)@ == old(out)@ + digits(n as nat),
    decreases n,
{
    if n >= 10 {
        push_digits(out, n / 10);
    }
    out.append(digit_text(n % 10));
    assert(out@ =~= old(out)@ + digits(n as nat));
}

/// Appends the text of a whole number.
pub fn push_decimal(out: &mut String, n: i64)
    ensures
        final(out)@ == old(out)@ + decimal(n as int),
        nul_free(old(out)@) ==> nul_free(final(out)@),
{
    if n < 0 {
        proof {
            reveal_strlit("-");
        }
        out.append("-");
        let magnitude: u64 = ((-(n + 1)) as u64) + 1;
        push_digits(out, magnitude);
        assert(out@ =~= old(out)@ + decimal(n as int));
    } else {
        push_digits(out, n as u64);
    }
    proof {
        lemma_decimal_is_plain(n as int);
        lemma_plain_is_nul_free(decimal(n as int));
        if nul_free(old(out)@) {
            lemma_nul_free_concat(old(out)@, decimal(n as int));
        }
    }
}

/// Appends the text of a boolean.
pub fn push_bool(out: &mut String, flag: bool)
    ensures
        final(out)@ == old(out)@ + json_bool(flag),
        nul_free(old(out)@) ==> nul_free(final(out)@),
{
    if flag {
        out.append("true");
    } else {
        out.append("false");
    }
    proof {
        lemma_bool_is_plain(flag);
        lemma_plain_is_nul_free(json_bool(flag));
        if nul_free(old(out)@) {
            lemma_nul_free_concat(old(out)@, json_bool(flag));
        }
    }
}

/// Begins a text with a plain piece.
pub fn begin_plain(piece: &str) -> (out: String)
    requires
        plain(piece@),
    ensures
        out@ == piece@,
        nul_free(out@),
{
    proof {
        lemma_plain_is_nul_free(piece@);
    }
    String::from_str(piece)
}

/// Appends a plain piece.
pub fn push_plain(out: &mut String, piece: &str)
    requires
        plain(piece@),
    ensures
        final(out)@ == old(out)@ + piece@,
        nul_free(old(out)@) ==> nul_free(final(out)@),
{
    out.append(piece);
    proof {
        lemma_plain_is_nul_free(piece@);
        if nul_free(old(out)@) {
            lemma_nul_free_concat(old(out)@, piece@);
        }
    }
}

/// Appends a piece that is free of zero bytes.
pub fn push_text(out: &mut String, piece: &str)
    requires
        nul_free(piece@),
    ensures
        final(out)@ == old(out)@ + piece@,
        nul_free(old(out)@) ==> nul_free(final(out)@),
{
    out.append(piece);
    proof {
        if nul_free(old(out)@) {
            lemma_nul_free_concat(old(out)@, piece@);
        }
    }
}

/// The text of a value that may be absent.
pub fn optional_to_text(leaf: &Option<serde_json::Value>) -> (text: Option<String>)
    ensures
        text_of(text) == optional_text(*leaf),
        text is Some,
        nul_free(text->0@),
{
    match leaf {
        Some(value) => value_text(value),
        None => {
            proof {
                reveal_strlit("null");
            }
            Some(begin_plain("null"))
        },
    }
}

} // verus!
