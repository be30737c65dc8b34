//! Hexadecimal text: the two directions between bytes and their lowercase
//! hexadecimal spelling, as sequences of ASCII bytes.

use hex::FromHex;
use vstd::prelude::*;

verus! {

/// The ASCII code of the lowercase hexadecimal digit of a nibble.
pub open spec fn hex_digit(nibble: u8) -> u8 {
    if nibble < 10 {
        (48 + nibble) as u8
    } else {
        (87 + nibble) as u8
    }
}

/// The value of one hexadecimal digit given by its ASCII code, in either
/// letter case; `None` for any other byte.
pub open spec fn hex_value(c: u8) -> Option<u8> {
    if 48 <= c <= 57 {
        Some((c - 48) as u8)
    } else if 97 <= c <= 102 {
        Some((c - 87) as u8)
    } else if 65 <= c <= 70 {
        Some((c - 55) as u8)
    } else {
        None
    }
}

/// The lowercase hexadecimal spelling of `data`: two digits per byte, the
/// high nibble first.
pub open spec fn hex_encoding(data: Seq<u8>) -> Seq<u8> {
    Seq::new(
        2 * data.len(),
        |i: int|
            if i % 2 == 0 {
                hex_digit(data[i / 2] / 16)
            } else {
                hex_digit(data[i / 2] % 16)
            },
    )
}

/// Whether `text` spells whole bytes in hexadecimal: an even number of
/// digits, each in either letter case.
pub open spec fn is_hex_text(text: Seq<u8>) -> bool {
    &&& text.len() % 2 == 0
    &&& forall|i: int| 0 <= i < text.len() ==> (#[trigger] hex_value(text[i])) is Some
}

/// The bytes that a hexadecimal `text` spells.
pub open spec fn hex_decoding(text: Seq<u8>) -> Seq<u8> {
    Seq::new(
        text.len() / 2,
        |i: int| (hex_value(text[2 * i])->0 * 16 + hex_value(text[2 * i + 1])->0) as u8,
    )
}

/// The ASCII lowercase of one byte: `A` to `Z` move to `a` to `z`, every
/// other byte stays.
pub open spec fn lower_byte(c: u8) -> u8 {
    if 65 <= c <= 90 {
        (c + 32) as u8
    } else {
        c
    }
}

/// `text` with every ASCII capital letter replaced by its small letter.
pub open spec fn ascii_lowercase(text: Seq<u8>) -> Seq<u8> {
    Seq::new(text.len(), |i: int| lower_byte(text[i]))
}

/// Calls `hex::encode`, which spells each byte of its input as two lowercase
/// hexadecimal digits, high nibble first, and hands the text back as bytes.
#[verifier::external_body]
pub(crate) fn hex_encode(data: &[u8]) -> (text: Vec<u8>)
    ensures
        text@ == hex_encoding(data@),
{
    hex::encode(data).into_bytes()
}

/// Calls `Vec::<u8>::from_hex` of the `hex` crate, which fails on an odd
/// number of digits or on a byte that is no hexadecimal digit, and otherwise
/// gives one byte for each pair of digits, whatever their letter case.
#[verifier::external_body]
pub(crate) fn hex_decode(text: &[u8]) -> (data: Option<Vec<u8>>)
    ensures
        data is Some <==> is_hex_text(text@),
        data matches Some(bytes) ==> bytes@ == hex_decoding(text@),
{
    Vec::<u8>::from_hex(text).ok()
}

/// Lowercases ASCII text byte by byte.
pub fn to_ascii_lowercase(text: &[u8]) -> (lowered: Vec<u8>)
    ensures
        lowered@ == ascii_lowercase(text@),
{
    let mut lowered: Vec<u8> = Vec::new();
    let mut i: usize = 0;
    while i < text.len()
        invariant
            i <= text.len(),
            lowered@ == ascii_lowercase(text@.take(i as int)),
        decreases text.len() - i,
    {
        let c: u8 = text[i];
        let l: u8 = if 65 <= c && c <= 90 { c + 32 } else { c };
        lowered.push(l);
        i += 1;
        assert(lowered@ =~= ascii_lowercase(text@.take(i as int)));
    }
    assert(text@.take(i as int) =~= text@);
    lowered
}

/// Decoding the spelling of `data` gives `data` back.
pub proof fn lemma_decode_of_encode(data: Seq<u8>)
    ensures
        is_hex_text(hex_encoding(data)),
        hex_decoding(hex_encoding(data)) == data,
{
    let text = hex_encoding(data);
    assert forall|i: int| 0 <= i < text.len() implies (#[trigger] hex_value(text[i])) is Some by {
        lemma_digit_value(data[i / 2] / 16);
        lemma_digit_value(data[i / 2] % 16);
    }
    assert forall|i: int| 0 <= i < data.len() implies hex_decoding(text)[i] == data[i] by {
        lemma_digit_value(data[i] / 16);
        lemma_digit_value(data[i] % 16);
        assert(text[2 * i] == hex_digit(data[i] / 16));
        assert(text[2 * i + 1] == hex_digit(data[i] % 16));
    }
    assert(hex_decoding(text) =~= data);
}

/// A nibble's digit reads back as the nibble, and is its own lowercase.
pub proof fn lemma_digit_value(nibble: u8)
    requires
        nibble < 16,
    ensures
        hex_value(hex_digit(nibble)) == Some(nibble),
        lower_byte(hex_digit(nibble)) == hex_digit(nibble),
{
}

/// The spelling of bytes is already in lowercase.
pub proof fn lemma_encoding_is_lowercase(data: Seq<u8>)
    ensures
        ascii_lowercase(hex_encoding(data)) == hex_encoding(data),
{
    let text = hex_encoding(data);
    assert forall|i: int| 0 <= i < text.len() implies lower_byte(text[i]) == text[i] by {
        lemma_digit_value(data[i / 2] / 16);
        lemma_digit_value(data[i / 2] % 16);
    }
    assert(ascii_lowercase(text) =~= text);
}

} // verus!
