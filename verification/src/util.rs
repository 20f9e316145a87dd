//! Hexadecimal text: how credentials are written into a request.

use vstd::prelude::*;
use vstd::string::*;
use vstd::utf8::*;

verus! {

/// The sixteen hexadecimal digits, in order of value.
pub const HEX_DIGITS: &'static str = "0123456789abcdef";

/// The digit that stands for `value`, for `0 <= value < 16`: `0` to `9`,
/// then `a` to `f`.
pub open spec fn hex_digit(value: int) -> char {
    if value < 10 {
        (value + 48) as char
    } else {
        (value + 87) as char
    }
}

/// Two digits for each byte, the high half first.
pub open spec fn hex_of_bytes(bytes: Seq<u8>) -> Seq<char> {
    Seq::new(
        2 * bytes.len(),
        |i: int|
            if i % 2 == 0 {
                hex_digit(bytes[i / 2] as int / 16)
            } else {
                hex_digit(bytes[i / 2] as int % 16)
            },
    )
}

/// The hex form of a text: that of its UTF-8 bytes.
pub open spec fn hex_of_text(text: Seq<char>) -> Seq<char> {
    hex_of_bytes(encode_utf8(text))
}

/// What the digit table holds.
proof fn lemma_hex_digits_table()
    ensures
        HEX_DIGITS@.len() == 16,
        forall|value: int| 0 <= value < 16 ==> HEX_DIGITS@[value] == #[trigger] hex_digit(value),
        is_ascii_chars(HEX_DIGITS@),
{
    reveal_strlit("0123456789abcdef");
}

/// The one-character text of a digit.
pub(crate) fn digit_text(value: u8) -> (text: &'static str)
    requires
        value < 16,
    ensures
        text@ == seq![hex_digit(value as int)],
{
    proof {
        lemma_hex_digits_table();
    }
    let at: usize = value as usize;
    HEX_DIGITS.substring_ascii(at, at + 1)
}

/// Writes a text as the hex form of its UTF-8 bytes, in lower case.
pub fn encode_to_hex(text: &str) -> (hex: String)
    ensures
        hex@ == hex_of_text(text@),
{
    let bytes = text.as_bytes();
    let mut hex = String::new();
    let mut done: usize = 0;
    while done < bytes.len()
        invariant
            done <= bytes.len(),
            hex@ == hex_of_bytes(bytes@.take(done as int)),
        decreases bytes.len() - done,
    {
        let byte: u8 = bytes[done];
        hex.append(digit_text(byte / 16));
        hex.append(digit_text(byte % 16));
        done += 1;
        assert(hex@ =~= hex_of_bytes(bytes@.take(done as int)));
    }
    assert(bytes@.take(done as int) =~= bytes@);
    hex
}

/// Tells whether two texts are the same, character for character.
pub fn same_text(a: &str, b: &str) -> (same: bool)
    ensures
        same == (a@ == b@),
{
    let left = a.as_bytes();
    let right = b.as_bytes();
    proof {
        encode_utf8_decode_utf8(a@);
        encode_utf8_decode_utf8(b@);
    }
    if left.len() != right.len() {
        return false;
    }
    let mut at: usize = 0;
    while at < left.len()
        invariant
            left@.len() == right@.len(),
            at <= left@.len(),
            forall|i: int| 0 <= i < at ==> left@[i] == right@[i],
            a@ == b@ ==> left@ == right@,
        decreases left.len() - at,
    {
        if left[at] != right[at] {
            return false;
        }
        at += 1;
    }
    assert(left@ =~= right@);
    true
}

/// The value of a hexadecimal digit, in either case; `None` for any other
/// character.
pub open spec fn hex_value(digit: char) -> Option<int> {
    if '0' <= digit <= '9' {
        Some(digit as int - 48)
    } else if 'a' <= digit <= 'f' {
        Some(digit as int - 87)
    } else if 'A' <= digit <= 'F' {
        Some(digit as int - 55)
    } else {
        None
    }
}

/// True of a text that is the hex form of some bytes: an even number of
/// characters, each a hexadecimal digit.
pub open spec fn is_hex(hex: Seq<char>) -> bool {
    &&& hex.len() % 2 == 0
    &&& forall|i: int| 0 <= i < hex.len() ==> (#[trigger] hex_value(hex[i])) is Some
}

/// The byte that two digits stand for.
pub open spec fn byte_of_digits(high: char, low: char) -> u8 {
    (16 * hex_value(high).unwrap() + hex_value(low).unwrap()) as u8
}

/// The bytes that a hex text stands for, where it stands for any.
pub open spec fn bytes_of_hex(hex: Seq<char>) -> Option<Seq<u8>> {
    if is_hex(hex) {
        Some(Seq::new(hex.len() / 2, |i: int| byte_of_digits(hex[2 * i], hex[2 * i + 1])))
    } else {
        None
    }
}

/// The text that a hex text stands for: its bytes read as UTF-8, where it
/// stands for bytes and they are UTF-8.
pub open spec fn text_of_hex(hex: Seq<char>) -> Option<Seq<char>> {
    match bytes_of_hex(hex) {
        Some(bytes) => if valid_utf8(bytes) {
            Some(decode_utf8(bytes))
        } else {
            None
        },
        None => None,
    }
}

/// The value of the digit with character code `code`, if it is one.
fn digit_value(code: u8) -> (value: Option<u8>)
    ensures
        match value {
            Some(v) => hex_value(code as char) == Some(v as int),
            None => hex_value(code as char) is None,
        },
{
    if 48 <= code && code <= 57 {
        Some(code - 48)
    } else if 97 <= code && code <= 102 {
        Some(code - 87)
    } else if 65 <= code && code <= 70 {
        Some(code - 55)
    } else {
        None
    }
}

/// `String::from_utf8` of std, with its error dropped. The contract claims
/// what std documents: the conversion succeeds exactly on well-formed UTF-8,
/// and the string it gives has those bytes as its encoding.
#[verifier::external_body]
fn string_from_utf8(bytes: Vec<u8>) -> (text: Option<String>)
    ensures
        text is Some <==> valid_utf8(bytes@),
        text matches Some(t) ==> encode_utf8(t@) == bytes@,
{
    String::from_utf8(bytes).ok()
}

/// Reads a hex text back: the text whose UTF-8 bytes the digits spell, or
/// `None` where `hex` has an odd length, holds a character that is no
/// hexadecimal digit, or spells bytes that are not UTF-8.
pub fn decode_from_hex(hex: &str) -> (text: Option<String>)
    ensures
        match text {
            Some(t) => text_of_hex(hex@) == Some(t@),
            None => text_of_hex(hex@) is None,
        },
{
    if !hex.is_ascii() {
        proof {
            let i = choose|i: int| 0 <= i < hex@.len() && !('\0' <= #[trigger] hex@[i] <= '\u{7f}');
            assert(hex_value(hex@[i]) is None);
        }
        return None;
    }
    let digits = hex.as_bytes();
    proof {
        is_ascii_chars_encode_utf8(hex@);
    }
    let len = digits.len();
    if len % 2 != 0 {
        return None;
    }
    let mut bytes: Vec<u8> = Vec::new();
    let mut at: usize = 0;
    while at < len
        invariant
            len == hex@.len(),
            len == digits@.len(),
            len % 2 == 0,
            at % 2 == 0,
            at <= len,
            forall|i: int| 0 <= i < len ==> hex@[i] as u8 == #[trigger] digits@[i],
            forall|i: int| 0 <= i < len ==> hex@[i] as u8 as char == #[trigger] hex@[i],
            forall|i: int| 0 <= i < at ==> (#[trigger] hex_value(hex@[i])) is Some,
            bytes@.len() == at / 2,
            forall|k: int|
                0 <= k < at / 2 ==> #[trigger] bytes@[k] == byte_of_digits(
                    hex@[2 * k],
                    hex@[2 * k + 1],
                ),
        decreases len - at,
    {
        let high = digit_value(digits[at]);
        let low = digit_value(digits[at + 1]);
        match (high, low) {
            (Some(h), Some(l)) => {
                bytes.push(h * 16 + l);
            },
            _ => {
                assert(hex_value(hex@[at as int]) is None || hex_value(hex@[at + 1]) is None);
                return None;
            },
        }
        at += 2;
    }
    assert(bytes@ =~= bytes_of_hex(hex@).unwrap());
    let text = string_from_utf8(bytes);
    proof {
        if text is Some {
            encode_utf8_decode_utf8(text.unwrap()@);
        }
    }
    text
}

/// True where `needle` stands in `hay` from position `at` on.
pub open spec fn occurs_at(needle: Seq<char>, hay: Seq<char>, at: int) -> bool {
    &&& 0 <= at
    &&& at + needle.len() <= hay.len()
    &&& forall|i: int| 0 <= i < needle.len() ==> #[trigger] hay[at + i] == needle[i]
}

/// True where `needle` stands somewhere in `hay`, as one piece.
pub open spec fn occurs_in(needle: Seq<char>, hay: Seq<char>) -> bool {
    exists|at: int| occurs_at(needle, hay, at)
}

/// True of the characters `0` to `9`.
pub open spec fn is_decimal_digit(c: char) -> bool {
    '0' <= c <= '9'
}

/// Each digit has the value it was chosen for.
pub proof fn lemma_value_of_hex_digit(value: int)
    requires
        0 <= value < 16,
    ensures
        hex_value(hex_digit(value)) == Some(value),
        '0' <= hex_digit(value) <= '9' || 'a' <= hex_digit(value) <= 'f',
{
}

/// A hex form is made of lower-case hexadecimal digits, two for each byte.
pub proof fn lemma_hex_alphabet(bytes: Seq<u8>)
    ensures
        hex_of_bytes(bytes).len() == 2 * bytes.len(),
        forall|i: int|
            0 <= i < 2 * bytes.len() ==> {
                let c = #[trigger] hex_of_bytes(bytes)[i];
                '0' <= c <= '9' || 'a' <= c <= 'f'
            },
{
    assert forall|i: int| 0 <= i < 2 * bytes.len() implies {
        let c = #[trigger] hex_of_bytes(bytes)[i];
        '0' <= c <= '9' || 'a' <= c <= 'f'
    } by {
        let byte = bytes[i / 2] as int;
        lemma_value_of_hex_digit(byte / 16);
        lemma_value_of_hex_digit(byte % 16);
    }
}

/// Reading a hex form gives back the bytes it was written from.
pub proof fn lemma_bytes_round_trip(bytes: Seq<u8>)
    ensures
        bytes_of_hex(hex_of_bytes(bytes)) == Some(bytes),
{
    let hex = hex_of_bytes(bytes);
    assert forall|i: int| 0 <= i < hex.len() implies (#[trigger] hex_value(hex[i])) is Some by {
        let byte = bytes[i / 2] as int;
        lemma_value_of_hex_digit(byte / 16);
        lemma_value_of_hex_digit(byte % 16);
    }
    assert(is_hex(hex));
    let back = bytes_of_hex(hex).unwrap();
    assert forall|k: int| 0 <= k < bytes.len() implies back[k] == bytes[k] by {
        let byte = bytes[k] as int;
        lemma_value_of_hex_digit(byte / 16);
        lemma_value_of_hex_digit(byte % 16);
        assert((2 * k) / 2 == k && (2 * k) % 2 == 0);
        assert((2 * k + 1) / 2 == k && (2 * k + 1) % 2 == 1);
        assert(hex[2 * k] == hex_digit(byte / 16));
        assert(hex[2 * k + 1] == hex_digit(byte % 16));
    }
    assert(back =~= bytes);
}

/// Writing a text in hex and reading it back gives the text: no text is
/// lost or changed on the way, whatever its characters.
pub proof fn lemma_hex_round_trip(text: Seq<char>)
    ensures
        text_of_hex(hex_of_text(text)) == Some(text),
{
    lemma_bytes_round_trip(encode_utf8(text));
    encode_utf8_valid_utf8(text);
    encode_utf8_decode_utf8(text);
}

/// True of the texts that can stand in their own hex form: those made of
/// decimal digits alone in which, of any two neighbours, one is a `3`.
pub open spec fn may_stand_in_its_hex(text: Seq<char>) -> bool {
    &&& forall|i: int| 0 <= i < text.len() ==> is_decimal_digit(#[trigger] text[i])
    &&& forall|i: int| 0 <= i < text.len() - 1 ==> #[trigger] text[i] == '3' || text[i + 1] == '3'
}

/// A text does not stand in its own hex form if it has a character other
/// than `0` to `9`, or two neighbours of which neither is a `3`. (Of the
/// remaining texts some do: the hex form of `7` is `37`.)
pub proof fn lemma_text_not_in_its_hex(text: Seq<char>)
    requires
        !may_stand_in_its_hex(text),
    ensures
        !occurs_in(text, hex_of_text(text)),
{
    let bytes = encode_utf8(text);
    let hex = hex_of_bytes(bytes);
    lemma_hex_alphabet(bytes);
    assert forall|at: int| !occurs_at(text, hex, at) by {
        if occurs_at(text, hex, at) {
            assert forall|i: int| 0 <= i < text.len() implies '\0' <= #[trigger] text[i]
                <= '\u{7f}' by {
                assert(hex[at + i] == text[i]);
            }
            is_ascii_chars_encode_utf8(text);
            // Every character of the text is a digit of the hex form, and so
            // one of `0` to `9`, `a` to `f`; of such characters the hex form
            // has `0` to `9` alone.
            assert forall|j: int| 0 <= j < hex.len() implies is_decimal_digit(#[trigger] hex[j])
                && (j % 2 == 0 ==> hex[j] == '3' || hex[j] == '6') by {
                let from = text[j / 2];
                assert(hex[at + j / 2] == from);
                assert(bytes[j / 2] == from as u8);
                let byte = bytes[j / 2] as int;
                assert(48 <= byte <= 57 || 97 <= byte <= 102);
                assert(byte / 16 == 3 || byte / 16 == 6);
                assert(byte % 16 < 10);
            }
            assert forall|i: int| 0 <= i < text.len() implies is_decimal_digit(
                #[trigger] text[i],
            ) by {
                assert(hex[at + i] == text[i]);
            }
            // So the text is made of `0` to `9`, and the hex form has a `3`
            // at every other place.
            assert forall|i: int| 0 <= i < text.len() - 1 implies #[trigger] text[i] == '3'
                || text[i + 1] == '3' by {
                assert(hex[at + i] == text[i]);
                assert(hex[at + (i + 1)] == text[i + 1]);
                let even = if (at + i) % 2 == 0 {
                    at + i
                } else {
                    at + i + 1
                };
                let from = text[even / 2];
                assert(is_decimal_digit(from));
                assert(bytes[even / 2] == from as u8);
                assert(bytes[even / 2] as int / 16 == 3);
                assert(hex[even] == '3');
            }
        }
    }
}

} // verus!
