//! JSON documents, as the `json` crate parses and reads them.
//!
//! A `JsonValue` is opaque to the verifier. Each operation on it that the
//! library uses is a small function here, whose contract is taken on trust from
//! the crate's source. The contracts say little more than that an operation
//! gives the same result for the same value: the results are named by the
//! functions without a body below, and the library's own rules are stated over
//! these names.
//!
//! The crate's parser counts the digits of a fraction in sixteen bits and
//! fails on more of them than these can count. The library follows the text as
//! the parser does, through its strings and numbers, and hands it over only
//! where no fraction has that many digits to count. Such a fraction begins
//! with `0.` and more than thirty thousand zeros; a text that holds one is
//! taken for no JSON at all.

use json::JsonValue;
use vstd::prelude::*;
use vstd::string::StringSliceAdditionalSpecFns;
use vstd::utf8::encode_utf8;

verus! {

#[verifier::external_type_specification]
#[verifier::external_body]
pub struct ExJsonValue(json::JsonValue);

/// What `json::parse` makes of a text: the document, or `None` where the text
/// is not well-formed JSON.
pub uninterp spec fn json_parse(text: Seq<char>) -> Option<JsonValue>;

/// What indexing a value by a key gives: the member under that key, or the
/// null value where the value is no object or has no such key.
pub uninterp spec fn json_member(value: JsonValue, key: Seq<char>) -> JsonValue;

/// Whether a value is the null value.
pub uninterp spec fn json_is_null(value: JsonValue) -> bool;

/// The characters of a string value, and `None` for any other value.
pub uninterp spec fn json_text(value: JsonValue) -> Option<Seq<char>>;

/// The members of an array, in order, and the empty sequence for any other
/// value.
pub uninterp spec fn json_items(value: JsonValue) -> Seq<JsonValue>;

/// How a value is displayed: a string as its characters, null as `null`,
/// everything else as compact JSON.
pub uninterp spec fn json_rendering(value: JsonValue) -> Seq<char>;

/// The most digits of one fraction that the parser can count.
pub const MAX_COUNTED_DIGITS: usize = 32768;

/// Where a scan of a text stands.
#[derive(Debug, Clone, Copy, PartialEq, Eq, Structural)]
pub enum Place {
    /// Outside strings, and not in a number that matters.
    Apart,
    /// Just behind a `0` that follows no digit: a number may begin with it.
    Zero,
    /// In a run of digits that is no lone zero.
    Digits,
    /// In the digits of a fraction that follows a lone zero.
    Fraction,
    /// Inside a string.
    Text,
    /// Inside a string, just behind a backslash.
    Escape,
}

/// What a scan of a text knows: where it stands and, in a fraction, the
/// mantissa that the parser has gathered and the number of digits that it has
/// counted; and whether some fraction held more digits than can be counted.
#[derive(Debug, Clone, Copy, PartialEq, Eq, Structural)]
pub struct FractionScan {
    pub place: Place,
    pub mantissa: u64,
    pub counted: usize,
    pub overrun: bool,
}

/// Whether a byte is one of the ten ASCII digits.
pub open spec fn is_digit(byte: u8) -> bool {
    0x30 <= byte <= 0x39
}

/// The scan before the first byte.
pub open spec fn scan_start() -> FractionScan {
    FractionScan { place: Place::Apart, mantissa: 0, counted: 0, overrun: false }
}

/// The scan of a fraction after one more digit. The parser appends the digit
/// to the mantissa and counts it, as long as the mantissa still fits in 64
/// bits; a digit that no longer fits is passed over.
pub open spec fn scan_fraction_digit(scan: FractionScan, byte: u8) -> FractionScan {
    let longer = scan.mantissa * 10 + (byte - 0x30);
    if longer > u64::MAX {
        scan
    } else if scan.counted >= MAX_COUNTED_DIGITS {
        FractionScan { mantissa: longer as u64, overrun: true, ..scan }
    } else {
        FractionScan { mantissa: longer as u64, counted: (scan.counted + 1) as usize, ..scan }
    }
}

/// The scan after one more byte.
pub open spec fn scan_step(scan: FractionScan, byte: u8) -> FractionScan {
    match scan.place {
        Place::Text => if byte == 0x5c {
            FractionScan { place: Place::Escape, ..scan }
        } else if byte == 0x22 {
            FractionScan { place: Place::Apart, ..scan }
        } else {
            scan
        },
        Place::Escape => FractionScan { place: Place::Text, ..scan },
        Place::Fraction => if is_digit(byte) {
            scan_fraction_digit(scan, byte)
        } else if byte == 0x22 {
            FractionScan { place: Place::Text, ..scan }
        } else {
            FractionScan { place: Place::Apart, ..scan }
        },
        Place::Zero => if is_digit(byte) {
            FractionScan { place: Place::Digits, ..scan }
        } else if byte == 0x2e {
            FractionScan { place: Place::Fraction, mantissa: 0, counted: 0, ..scan }
        } else if byte == 0x22 {
            FractionScan { place: Place::Text, ..scan }
        } else {
            FractionScan { place: Place::Apart, ..scan }
        },
        Place::Digits => if is_digit(byte) {
            scan
        } else if byte == 0x22 {
            FractionScan { place: Place::Text, ..scan }
        } else {
            FractionScan { place: Place::Apart, ..scan }
        },
        Place::Apart => if byte == 0x30 {
            FractionScan { place: Place::Zero, ..scan }
        } else if is_digit(byte) {
            FractionScan { place: Place::Digits, ..scan }
        } else if byte == 0x22 {
            FractionScan { place: Place::Text, ..scan }
        } else {
            scan
        },
    }
}

/// The scan after the first `n` bytes.
pub open spec fn scan_of(bytes: Seq<u8>, n: int) -> FractionScan
    decreases n,
{
    if n <= 0 || n > bytes.len() {
        scan_start()
    } else {
        scan_step(scan_of(bytes, n - 1), bytes[n - 1])
    }
}

/// Whether the parser can count the digits of every fraction in the bytes.
///
/// A fraction is what follows `0.` outside strings, the `0` following no
/// digit. Only there can the count grow large: behind any other whole part the
/// mantissa is not zero, and is full after twenty digits.
pub open spec fn fractions_countable(bytes: Seq<u8>) -> bool {
    !scan_of(bytes, bytes.len() as int).overrun
}

/// The document that the library reads from a text: what `json::parse` makes
/// of it, and nothing where the parser cannot count the digits of a fraction.
pub open spec fn json_document(text: Seq<char>) -> Option<JsonValue> {
    if fractions_countable(encode_utf8(text)) {
        json_parse(text)
    } else {
        None
    }
}

impl FractionScan {
    /// The scan after one more byte.
    pub fn advance(self, byte: u8) -> (after: FractionScan)
        ensures
            after == scan_step(self, byte),
    {
        let digit = 0x30 <= byte && byte <= 0x39;
        match self.place {
            Place::Text => if byte == 0x5c {
                FractionScan { place: Place::Escape, ..self }
            } else if byte == 0x22 {
                FractionScan { place: Place::Apart, ..self }
            } else {
                self
            },
            Place::Escape => FractionScan { place: Place::Text, ..self },
            Place::Fraction => if digit {
                let value: u64 = (byte - 0x30) as u64;
                if self.mantissa > (u64::MAX - value) / 10 {
                    self
                } else if self.counted >= MAX_COUNTED_DIGITS {
                    FractionScan { mantissa: self.mantissa * 10 + value, overrun: true, ..self }
                } else {
                    FractionScan {
                        mantissa: self.mantissa * 10 + value,
                        counted: self.counted + 1,
                        ..self
                    }
                }
            } else if byte == 0x22 {
                FractionScan { place: Place::Text, ..self }
            } else {
                FractionScan { place: Place::Apart, ..self }
            },
            Place::Zero => if digit {
                FractionScan { place: Place::Digits, ..self }
            } else if byte == 0x2e {
                FractionScan { place: Place::Fraction, mantissa: 0, counted: 0, ..self }
            } else if byte == 0x22 {
                FractionScan { place: Place::Text, ..self }
            } else {
                FractionScan { place: Place::Apart, ..self }
            },
            Place::Digits => if digit {
                self
            } else if byte == 0x22 {
                FractionScan { place: Place::Text, ..self }
            } else {
                FractionScan { place: Place::Apart, ..self }
            },
            Place::Apart => if byte == 0x30 {
                FractionScan { place: Place::Zero, ..self }
            } else if digit {
                FractionScan { place: Place::Digits, ..self }
            } else if byte == 0x22 {
                FractionScan { place: Place::Text, ..self }
            } else {
                self
            },
        }
    }
}

/// Says whether the parser can count the digits of every fraction in the
/// text.
pub fn has_countable_fractions(text: &str) -> (countable: bool)
    ensures
        countable == fractions_countable(encode_utf8(text@)),
{
    let bytes = text.as_bytes();
    let mut scan = FractionScan { place: Place::Apart, mantissa: 0, counted: 0, overrun: false };
    let mut i: usize = 0;
    while i < bytes.len()
        invariant
            i <= bytes.len(),
            bytes@ == encode_utf8(text@),
            scan == scan_of(bytes@, i as int),
        decreases bytes.len() - i,
    {
        scan = scan.advance(bytes[i]);
        i += 1;
    }
    !scan.overrun
}

/// Calls `json::parse` and drops the error. Taken on trust: the call returns on
/// every text in which the digits of every fraction can be counted, and what
/// it returns depends on the text alone.
///
/// The parser counts the digits of a fraction in sixteen bits, one for each
/// digit that it appends to the mantissa, and fails on the digit after the
/// 32768th. Nothing else in it can fail: digits in a string are copied, too
/// long a whole part ends in an error, and an exponent saturates.
#[verifier::external_body]
fn parse_document(text: &str) -> (document: Option<JsonValue>)
    requires
        fractions_countable(encode_utf8(text@)),
    ensures
        document == json_parse(text@),
{
    json::parse(text).ok()
}

/// Parses a text as JSON, unless it holds a fraction whose digits the parser
/// cannot count.
pub fn read_document(text: &str) -> (document: Option<JsonValue>)
    ensures
        document == json_document(text@),
{
    if has_countable_fractions(text) {
        parse_document(text)
    } else {
        None
    }
}

/// Indexes a value by a key (`Index<&str>` of `JsonValue`). Taken on trust:
/// the member found depends on the value and the key alone.
#[verifier::external_body]
pub(crate) fn member<'a>(value: &'a JsonValue, key: &str) -> (found: &'a JsonValue)
    ensures
        *found == json_member(*value, key@),
{
    &value[key]
}

/// Calls `JsonValue::is_null`. Taken on trust: the answer depends on the value
/// alone.
#[verifier::external_body]
pub(crate) fn is_null(value: &JsonValue) -> (null: bool)
    ensures
        null == json_is_null(*value),
{
    value.is_null()
}

/// Calls `JsonValue::as_str` and copies the characters. Taken on trust: the
/// characters depend on the value alone.
#[verifier::external_body]
pub(crate) fn text_of(value: &JsonValue) -> (text: Option<String>)
    ensures
        text.deep_view() == json_text(*value),
{
    value.as_str().map(String::from)
}

/// Calls `JsonValue::members` and collects what it yields. Taken on trust: the
/// members, and their order, depend on the value alone.
#[verifier::external_body]
pub(crate) fn items_of(value: &JsonValue) -> (items: Vec<&JsonValue>)
    ensures
        items@.len() == json_items(*value).len(),
        forall|i: int| 0 <= i < items@.len() ==> *items@[i] == json_items(*value)[i],
{
    value.members().collect()
}

/// Displays a value (`Display` of `JsonValue`, through `to_string`). Taken on
/// trust: the text depends on the value alone; a string is displayed as its own
/// characters, and null as the four letters of its name.
#[verifier::external_body]
pub(crate) fn rendering_of(value: &JsonValue) -> (text: String)
    ensures
        text@ == json_rendering(*value),
        json_text(*value) matches Some(characters) ==> text@ == characters,
        json_is_null(*value) ==> text@ == "null"@,
{
    value.to_string()
}

/// How a value is shown in a message: a string as its own characters, null as
/// `null`, and any other value as the document displays it.
pub open spec fn json_shown(value: JsonValue) -> Seq<char> {
    match json_text(value) {
        Some(characters) => characters,
        None => if json_is_null(value) {
            "null"@
        } else {
            json_rendering(value)
        },
    }
}

/// The text that shows a value in a message.
pub fn show(value: &JsonValue) -> (text: String)
    ensures
        text@ == json_shown(*value),
{
    rendering_of(value)
}

} // verus!
