//! Content identifiers as they are written in a request path: two leading
//! characters, then the identifier's bytes in hexadecimal.

use vstd::prelude::*;
use vstd::slice::slice_subrange;

verus! {

/// Number of leading characters that come before the hexadecimal digits.
pub const PREFIX_LEN: usize = 2;

/// Why a text is not a content identifier.
#[derive(Clone, Copy, Debug, PartialEq, Eq)]
pub enum ContentIdError {
    /// The text is shorter than the prefix.
    TooShort,
    /// What follows the prefix is not a whole number of bytes in hexadecimal.
    InvalidHex,
}

/// The value of a hexadecimal digit, given as an ASCII character of either
/// case; none for any other byte.
pub open spec fn hex_digit_value(digit: u8) -> Option<int> {
    if 0x30 <= digit <= 0x39 {
        Some(digit - 0x30)
    } else if 0x41 <= digit <= 0x46 {
        Some(digit - 0x41 + 10)
    } else if 0x61 <= digit <= 0x66 {
        Some(digit - 0x61 + 10)
    } else {
        None
    }
}

/// Whether `text` writes a sequence of bytes in hexadecimal: an even number
/// of characters, each a hexadecimal digit.
pub open spec fn is_hex(text: Seq<u8>) -> bool {
    &&& text.len() % 2 == 0
    &&& forall|i: int| 0 <= i < text.len() ==> hex_digit_value(#[trigger] text[i]) is Some
}

/// The byte that two hexadecimal digits write, the high digit first.
pub open spec fn hex_byte(high: u8, low: u8) -> u8 {
    (16 * hex_digit_value(high).unwrap() + hex_digit_value(low).unwrap()) as u8
}

/// The bytes that `text` writes in hexadecimal, two digits to a byte.
pub open spec fn hex_bytes(text: Seq<u8>) -> Seq<u8> {
    Seq::new(text.len() / 2, |i: int| hex_byte(text[2 * i], text[2 * i + 1]))
}

/// The content identifier that `text` writes: the bytes that the characters
/// after the prefix give in hexadecimal. The two characters of the prefix
/// are not looked at.
pub open spec fn parsed_content_id(text: Seq<u8>) -> Result<Seq<u8>, ContentIdError> {
    if text.len() < PREFIX_LEN {
        Err(ContentIdError::TooShort)
    } else if !is_hex(text.skip(PREFIX_LEN as int)) {
        Err(ContentIdError::InvalidHex)
    } else {
        Ok(hex_bytes(text.skip(PREFIX_LEN as int)))
    }
}

/// Reads the content identifier that `text` writes.
pub fn content_id_from_hex(text: &[u8]) -> (id: Result<Vec<u8>, ContentIdError>)
    ensures
        id is Ok ==> parsed_content_id(text@) == Ok::<Seq<u8>, ContentIdError>(id.unwrap()@),
        id is Err ==> parsed_content_id(text@) == Err::<Seq<u8>, ContentIdError>(id.unwrap_err()),
{
    if text.len() < PREFIX_LEN {
        return Err(ContentIdError::TooShort);
    }
    let digits = slice_subrange(text, PREFIX_LEN, text.len());
    assert(digits@ =~= text@.skip(PREFIX_LEN as int));
    match hex_decode(digits) {
        Ok(bytes) => Ok(bytes),
        Err(_) => Err(ContentIdError::InvalidHex),
    }
}

/// Each byte of a content identifier is written by two of the text's
/// characters, and nothing else of the text matters: the identifier is as
/// long as half of what follows the prefix, and its byte `i` has the values
/// of the two digits at `2 + 2i` and `3 + 2i` as its high and low half.
pub proof fn content_id_digits(text: Seq<u8>, i: int)
    requires
        parsed_content_id(text) is Ok,
        0 <= i < (text.len() - PREFIX_LEN) / 2,
    ensures
        parsed_content_id(text).unwrap().len() == (text.len() - PREFIX_LEN) / 2,
        hex_digit_value(text[PREFIX_LEN + 2 * i]) is Some,
        hex_digit_value(text[PREFIX_LEN + 2 * i + 1]) is Some,
        parsed_content_id(text).unwrap()[i] == 16 * hex_digit_value(
            text[PREFIX_LEN + 2 * i],
        ).unwrap() + hex_digit_value(text[PREFIX_LEN + 2 * i + 1]).unwrap(),
{
    let digits = text.skip(PREFIX_LEN as int);
    assert(digits[2 * i] == text[PREFIX_LEN + 2 * i]);
    assert(digits[2 * i + 1] == text[PREFIX_LEN + 2 * i + 1]);
}

#[verifier::external_type_specification]
#[verifier::external_body]
pub struct ExFromHexError(hex::FromHexError);

/// Decodes hexadecimal text with `hex::decode`. That function fails on a
/// text of odd length and on any character other than `0` to `9`, `a` to `f`
/// and `A` to `F`; otherwise it returns one byte for each two characters,
/// the first of the two as the high four bits.
#[verifier::external_body]
fn hex_decode(text: &[u8]) -> (decoded: Result<Vec<u8>, hex::FromHexError>)
    ensures
        decoded is Ok <==> is_hex(text@),
        decoded matches Ok(bytes) ==> bytes@ == hex_bytes(text@),
{
    hex::decode(text)
}

} // verus!
