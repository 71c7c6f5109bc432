//! JSON texts, read and written with `serde_json`.
//!
//! The functions of this module take and return JSON as text. What
//! `serde_json` makes of a text is not spelled out here: each reading or
//! writing step has a name, and the contracts of this crate say which steps
//! are taken on which texts.

use vstd::prelude::*;
use vstd::string::StringExecFns;

verus! {

/// The kinds of JSON value.
#[derive(Clone, Copy, Debug, PartialEq, Eq, Structural)]
pub enum JsonKind {
    Null,
    Bool,
    Number,
    Text,
    Array,
    Object,
}

/// The kind of the JSON value that `text` encodes, if it encodes one.
pub uninterp spec fn json_kind(text: Seq<char>) -> Option<JsonKind>;

/// The member `key` of the JSON object that `text` encodes, as text, if
/// `text` encodes an object that has such a member.
pub uninterp spec fn json_member(text: Seq<char>, key: Seq<char>) -> Option<Seq<char>>;

/// The string that `text` encodes, if it encodes a JSON string.
pub uninterp spec fn json_string(text: Seq<char>) -> Option<Seq<char>>;

/// The whole number that `text` encodes, if it encodes a JSON number that is
/// a whole number of 64 bits with sign.
pub uninterp spec fn json_integer(text: Seq<char>) -> Option<i64>;

/// The whole number that `text` encodes, if it encodes a JSON number that is
/// a whole number of 64 bits without sign.
pub uninterp spec fn json_unsigned(text: Seq<char>) -> Option<u64>;

/// The JSON text that encodes the string `value`.
pub uninterp spec fn json_string_text(value: Seq<char>) -> Seq<char>;

/// The JSON text of the object that `object` encodes, with its member `key`
/// set to the value that `value` encodes; `object` itself where it encodes
/// no object or `value` no value.
pub uninterp spec fn json_with_member(object: Seq<char>, key: Seq<char>, value: Seq<char>) -> Seq<
    char,
>;

/// View of an optional text.
pub open spec fn text_view(text: Option<String>) -> Option<Seq<char>> {
    match text {
        Some(text) => Some(text@),
        None => None,
    }
}

/// Tells what kind of JSON value `text` is. Parses `text` with
/// `serde_json::from_str` into a `serde_json::Value` and names the variant
/// that came out, or nothing where the parser refused the text.
#[verifier::external_body]
pub(crate) fn kind_of(text: &str) -> (kind: Option<JsonKind>)
    ensures
        kind == json_kind(text@),
{
    match serde_json::from_str::<serde_json::Value>(text) {
        Ok(serde_json::Value::Null) => Some(JsonKind::Null),
        Ok(serde_json::Value::Bool(_)) => Some(JsonKind::Bool),
        Ok(serde_json::Value::Number(_)) => Some(JsonKind::Number),
        Ok(serde_json::Value::String(_)) => Some(JsonKind::Text),
        Ok(serde_json::Value::Array(_)) => Some(JsonKind::Array),
        Ok(serde_json::Value::Object(_)) => Some(JsonKind::Object),
        Err(_) => None,
    }
}

/// Looks up a member of a JSON object. Parses `text` with
/// `serde_json::from_str`, looks `key` up with `serde_json::Value::get`, and
/// writes what was found back as text with `serde_json::to_string`. Nothing
/// comes back where the parser refused the text, where the value is no
/// object, or where the object has no such member.
#[verifier::external_body]
pub(crate) fn member(text: &str, key: &str) -> (found: Option<String>)
    ensures
        text_view(found) == json_member(text@, key@),
{
    match serde_json::from_str::<serde_json::Value>(text) {
        Ok(value) => match value.get(key) {
            Some(member) => serde_json::to_string(member).ok(),
            None => None,
        },
        Err(_) => None,
    }
}

/// Reads a JSON string. Parses `text` with `serde_json::from_str` and takes
/// the string out with `serde_json::Value::as_str`; nothing comes back where
/// the parser refused the text or the value is no string.
#[verifier::external_body]
pub(crate) fn string_of(text: &str) -> (value: Option<String>)
    ensures
        text_view(value) == json_string(text@),
{
    match serde_json::from_str::<serde_json::Value>(text) {
        Ok(value) => match value.as_str() {
            Some(string) => Some(string.to_owned()),
            None => None,
        },
        Err(_) => None,
    }
}

/// Reads a whole number with sign. Parses `text` with
/// `serde_json::from_str` and takes the number out with
/// `serde_json::Value::as_i64`; nothing comes back where the parser refused
/// the text or the value is no such number.
#[verifier::external_body]
pub(crate) fn integer_of(text: &str) -> (value: Option<i64>)
    ensures
        value == json_integer(text@),
{
    match serde_json::from_str::<serde_json::Value>(text) {
        Ok(value) => value.as_i64(),
        Err(_) => None,
    }
}

/// Reads a whole number without sign. Parses `text` with
/// `serde_json::from_str` and takes the number out with
/// `serde_json::Value::as_u64`; nothing comes back where the parser refused
/// the text or the value is no such number.
#[verifier::external_body]
pub(crate) fn unsigned_of(text: &str) -> (value: Option<u64>)
    ensures
        value == json_unsigned(text@),
{
    match serde_json::from_str::<serde_json::Value>(text) {
        Ok(value) => value.as_u64(),
        Err(_) => None,
    }
}

/// Writes a string as JSON text, with `serde_json::to_string`.
#[verifier::external_body]
pub(crate) fn string_text(value: &str) -> (text: String)
    ensures
        text@ == json_string_text(value@),
{
    serde_json::to_string(value).unwrap_or_default()
}

/// Sets a member of a JSON object. Parses `object` and `value` with
/// `serde_json::from_str`, puts the value into the object under `key` with
/// `serde_json::Map::insert`, and writes the object back as text with
/// `serde_json::to_string`. Where `object` is no object or `value` no JSON
/// value, `object` comes back as it is.
#[verifier::external_body]
pub(crate) fn with_member(object: &str, key: &str, value: &str) -> (text: String)
    ensures
        text@ == json_with_member(object@, key@, value@),
{
    match (serde_json::from_str(object), serde_json::from_str::<serde_json::Value>(value)) {
        (Ok(serde_json::Value::Object(mut members)), Ok(value)) => {
            members.insert(key.to_owned(), value);
            serde_json::to_string(&members).unwrap_or(object.to_owned())
        },
        _ => object.to_owned(),
    }
}

/// The decimal digit for `d`.
pub open spec fn digit(d: int) -> char {
    if d == 0 {
        '0'
    } else if d == 1 {
        '1'
    } else if d == 2 {
        '2'
    } else if d == 3 {
        '3'
    } else if d == 4 {
        '4'
    } else if d == 5 {
        '5'
    } else if d == 6 {
        '6'
    } else if d == 7 {
        '7'
    } else if d == 8 {
        '8'
    } else {
        '9'
    }
}

/// The decimal digits of `n`, without leading zeros.
pub open spec fn digits(n: nat) -> Seq<char>
    decreases n,
{
    if n < 10 {
        seq![digit(n as int)]
    } else {
        digits(n / 10).push(digit((n % 10) as int))
    }
}

/// The decimal numeral of `n`.
pub open spec fn decimal(n: int) -> Seq<char> {
    if n < 0 {
        seq!['-'] + digits((-n) as nat)
    } else {
        digits(n as nat)
    }
}

fn digit_text(d: u64) -> (text: &'static str)
    requires
        d < 10,
    ensures
        text@ == seq![digit(d as int)],
{
    proof {
        reveal_strlit("0");
        reveal_strlit("1");
        reveal_strlit("2");
        reveal_strlit("3");
        reveal_strlit("4");
        reveal_strlit("5");
        reveal_strlit("6");
        reveal_strlit("7");
        reveal_strlit("8");
        reveal_strlit("9");
    }
    let text = if d == 0 {
        "0"
    } else if d == 1 {
        "1"
    } else if d == 2 {
        "2"
    } else if d == 3 {
        "3"
    } else if d == 4 {
        "4"
    } else if d == 5 {
        "5"
    } else if d == 6 {
        "6"
    } else if d == 7 {
        "7"
    } else if d == 8 {
        "8"
    } else {
        "9"
    };
    assert(text@ =~= seq![digit(d as int)]);
    text
}

/// Writes a whole number without sign as a decimal numeral, which is its
/// JSON text.
pub fn unsigned_text(n: u64) -> (text: String)
    ensures
        text@ == decimal(n as int),
{
    let mut text = digit_text(n % 10).to_owned();
    let mut rest = n / 10;
    assert(rest == 0 ==> digits(n as nat) =~= text@);
    assert(rest > 0 ==> digits(n as nat) =~= digits(rest as nat) + text@);
    while rest > 0
        invariant
            rest == 0 ==> digits(n as nat) == text@,
            rest > 0 ==> digits(n as nat) == digits(rest as nat) + text@,
        decreases rest,
    {
        let ghost behind = text@;
        let ghost before = rest;
        let mut longer = digit_text(rest % 10).to_owned();
        longer.append(text.as_str());
        text = longer;
        rest = rest / 10;
        proof {
            assert(text@ =~= seq![digit((before % 10) as int)] + behind);
            if before < 10 {
                assert(digits(before as nat) =~= seq![digit(before as int)]);
                assert(digits(before as nat) + behind =~= text@);
            } else {
                assert(digits(before as nat) =~= digits(rest as nat).push(
                    digit((before % 10) as int),
                ));
                assert(digits(before as nat) + behind =~= digits(rest as nat) + text@);
            }
        }
    }
    text
}

/// Writes a whole number with sign as a decimal numeral, which is its JSON
/// text.
pub fn integer_text(n: i64) -> (text: String)
    ensures
        text@ == decimal(n as int),
{
    if n < 0 {
        let wide: i128 = -(n as i128);
        let magnitude: u64 = wide as u64;
        let mut text = "-".to_owned();
        proof {
            reveal_strlit("-");
        }
        let numeral = unsigned_text(magnitude);
        text.append(numeral.as_str());
        assert(text@ =~= seq!['-'] + digits((-n) as nat));
        text
    } else {
        unsigned_text(n as u64)
    }
}

} // verus!
