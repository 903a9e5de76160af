//! Hexadecimal text.

use vstd::prelude::*;

verus! {

/// Why `hex` could not decode a text. The library reads none of it.
#[verifier::external_type_specification]
#[verifier::external_body]
pub struct ExFromHexError(hex::FromHexError);

/// The value of a hexadecimal digit, in either case.
pub open spec fn digit_value(digit: u8) -> Option<int> {
    if 0x30 <= digit <= 0x39 {
        Some(digit - 0x30)
    } else if 0x41 <= digit <= 0x46 {
        Some(digit - 0x41 + 10)
    } else if 0x61 <= digit <= 0x66 {
        Some(digit - 0x61 + 10)
    } else {
        None
    }
}

/// The bytes that a hexadecimal text stands for, two digits to the byte;
/// `None` for a text of odd length or with a byte that is no digit.
pub open spec fn decoded(text: Seq<u8>) -> Option<Seq<u8>> {
    if text.len() % 2 == 0 && forall|i: int| 0 <= i < text.len() ==> digit_value(text[i]) is Some {
        Some(
            Seq::new(
                text.len() / 2,
                |i: int| (16 * digit_value(text[2 * i])->0 + digit_value(text[2 * i + 1])->0) as u8,
            ),
        )
    } else {
        None
    }
}

/// Calls `hex::decode`. The contract claims what the source of `hex` shows:
/// the call succeeds on a text of even length made of the digits `0` to `9`,
/// `a` to `f` and `A` to `F`, then gives one byte for each two digits, the
/// first digit being the upper half of the byte, and fails on every other
/// text.
#[verifier::external_body]
fn hex_decode(text: &Vec<u8>) -> (r: Result<Vec<u8>, hex::FromHexError>)
    ensures
        match r {
            Ok(bytes) => decoded(text@) == Some(bytes@),
            Err(_) => decoded(text@) is None,
        },
{
    hex::decode(text)
}

/// Decodes a hexadecimal text.
pub fn decode(text: &Vec<u8>) -> (r: Option<Vec<u8>>)
    ensures
        match r {
            Some(bytes) => decoded(text@) == Some(bytes@),
            None => decoded(text@) is None,
        },
{
    match hex_decode(text) {
        Ok(bytes) => Some(bytes),
        Err(_) => None,
    }
}

/// The digit, in lower case, of a value below sixteen.
pub open spec fn digit_of(value: int) -> u8 {
    if value < 10 {
        (0x30 + value) as u8
    } else {
        (0x61 + value - 10) as u8
    }
}

/// The hexadecimal text of bytes: two digits to the byte, the upper half
/// first.
pub open spec fn encoded(bytes: Seq<u8>) -> Seq<u8> {
    Seq::new(
        2 * bytes.len(),
        |i: int|
            if i % 2 == 0 {
                digit_of(bytes[i / 2] as int / 16)
            } else {
                digit_of(bytes[i / 2] as int % 16)
            },
    )
}

/// The hexadecimal text of bytes is made of digits and stands for the bytes.
pub proof fn encoded_text_stands_for_the_bytes(bytes: Seq<u8>)
    ensures
        decoded(encoded(bytes)) == Some(bytes),
        encoded(bytes).len() == 2 * bytes.len(),
        forall|i: int|
            0 <= i < encoded(bytes).len() ==> digit_value(#[trigger] encoded(bytes)[i]) is Some,
{
    let text = encoded(bytes);
    assert forall|i: int| 0 <= i < text.len() implies digit_value(#[trigger] text[i]) is Some by {
        let byte = bytes[i / 2] as int;
        assert(0 <= byte / 16 < 16 && 0 <= byte % 16 < 16);
    }
    let back = decoded(text)->0;
    assert(back.len() == bytes.len());
    assert forall|i: int| 0 <= i < bytes.len() implies back[i] == bytes[i] by {
        let byte = bytes[i] as int;
        assert((2 * i) % 2 == 0 && (2 * i) / 2 == i);
        assert((2 * i + 1) % 2 == 1 && (2 * i + 1) / 2 == i);
        assert(0 <= byte / 16 < 16 && 0 <= byte % 16 < 16);
        assert(text[2 * i] == digit_of(byte / 16));
        assert(text[2 * i + 1] == digit_of(byte % 16));
        assert(digit_value(digit_of(byte / 16)) == Some(byte / 16));
        assert(digit_value(digit_of(byte % 16)) == Some(byte % 16));
        assert(16 * (byte / 16) + byte % 16 == byte);
    }
    assert(back =~= bytes);
}

} // verus!
