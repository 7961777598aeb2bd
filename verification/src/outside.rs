//! Everything this crate takes on trust: the contracts below describe functions of
//! `byteorder` and of the standard library, and Verus believes them without proof.

use vstd::prelude::*;
use vstd::string::StringSliceAdditionalSpecFns;
use vstd::utf8::{is_char_boundary, valid_utf8};
use byteorder::ByteOrder;

verus! {

/// `std::num::ParseIntError`, carried as it is.
#[verifier::external_type_specification]
#[verifier::external_body]
pub struct ExParseIntError(std::num::ParseIntError);

/// `std::str::Utf8Error`, carried as it is.
#[verifier::external_type_specification]
#[verifier::external_body]
pub struct ExUtf8Error(std::str::Utf8Error);

/// `std::string::FromUtf16Error`, carried as it is.
#[verifier::external_type_specification]
#[verifier::external_body]
pub struct ExFromUtf16Error(std::string::FromUtf16Error);

/// `std::io::ErrorKind`, carried as it is.
#[verifier::external_type_specification]
#[verifier::external_body]
pub struct ExErrorKind(std::io::ErrorKind);

/// `Clone::clone` of `std::num::ParseIntError`: the copy equals the value it was made from.
pub assume_specification[ <std::num::ParseIntError as Clone>::clone ](
    e: &std::num::ParseIntError,
) -> (r: std::num::ParseIntError)
    ensures
        r == *e,
;

/// `String::push`: appends one character to the end of the string.
pub assume_specification[ String::push ](s: &mut String, ch: char)
    ensures
        final(s)@ == old(s)@.push(ch),
;

/// `std::str::from_utf8`: succeeds exactly on well-formed UTF-8, and the string it
/// returns is laid over the very bytes it was given.
pub assume_specification[ std::str::from_utf8 ](v: &[u8]) -> (r: Result<
    &str,
    std::str::Utf8Error,
>)
    ensures
        r is Ok <==> valid_utf8(v@),
        r matches Ok(s) ==> s.spec_bytes() == v@,
;

/// The text that a sequence of UTF-16 code units stands for, or `None` where the
/// units are not valid UTF-16.
pub uninterp spec fn utf16_decoding(units: Seq<u16>) -> Option<Seq<char>>;

/// `String::from_utf16`: decodes UTF-16 code units, and fails on invalid data.
/// Its result depends on the units alone.
pub assume_specification[ String::from_utf16 ](v: &[u16]) -> (r: Result<
    String,
    std::string::FromUtf16Error,
>)
    ensures
        match r {
            Ok(s) => utf16_decoding(v@) == Some(s@),
            Err(_) => utf16_decoding(v@) is None,
        },
;

/// The big-endian value of the first two bytes of `bytes`.
pub open spec fn be16(bytes: Seq<u8>) -> int {
    bytes[0] * 0x100 + bytes[1]
}

/// The big-endian value of the first four bytes of `bytes`.
pub open spec fn be32(bytes: Seq<u8>) -> int {
    bytes[0] * 0x100_0000 + bytes[1] * 0x1_0000 + bytes[2] * 0x100 + bytes[3]
}

/// `byteorder::BigEndian::read_u16`: the first two bytes of `buf`, most significant
/// first. It panics on a shorter buffer, which the precondition rules out.
#[verifier::external_body]
pub(crate) fn read_u16_be(buf: &[u8]) -> (r: u16)
    requires
        buf@.len() >= 2,
    ensures
        r == be16(buf@),
{
    byteorder::BigEndian::read_u16(buf)
}

/// `byteorder::BigEndian::read_u32`: the first four bytes of `buf`, most significant
/// first. It panics on a shorter buffer, which the precondition rules out.
#[verifier::external_body]
pub(crate) fn read_u32_be(buf: &[u8]) -> (r: u32)
    requires
        buf@.len() >= 4,
    ensures
        r == be32(buf@),
{
    byteorder::BigEndian::read_u32(buf)
}

/// True for the ASCII digits `0` to `9`.
pub open spec fn is_digit(b: u8) -> bool {
    0x30 <= b <= 0x39
}

/// The number that a run of ASCII digits writes in base ten.
pub open spec fn digits_value(digits: Seq<u8>) -> nat
    decreases digits.len(),
{
    if digits.len() == 0 {
        0
    } else {
        (digits_value(digits.drop_last()) * 10 + (digits.last() - 0x30)) as nat
    }
}

/// The digits of a decimal literal: the text itself, or what follows one leading `+`.
pub open spec fn unsigned_digits(text: Seq<u8>) -> Seq<u8> {
    if text.len() > 0 && text[0] == 0x2b {
        text.drop_first()
    } else {
        text
    }
}

/// What the standard library reads from `text` as an unsigned integer no greater than
/// `max`: an optional `+`, then at least one digit and nothing else.
pub open spec fn unsigned_decimal(text: Seq<u8>, max: nat) -> Option<nat> {
    let digits = unsigned_digits(text);
    if digits.len() > 0 && (forall|i: int| 0 <= i < digits.len() ==> is_digit(#[trigger] digits[i]))
        && digits_value(digits) <= max {
        Some(digits_value(digits))
    } else {
        None
    }
}

/// `str::parse::<u8>`: reads an optional `+` and decimal digits; anything else, and a
/// value over 255, is an error.
#[verifier::external_body]
pub(crate) fn parse_u8(text: &str) -> (r: Result<u8, std::num::ParseIntError>)
    ensures
        match r {
            Ok(v) => unsigned_decimal(text.spec_bytes(), 0xff) == Some(v as nat),
            Err(_) => unsigned_decimal(text.spec_bytes(), 0xff) is None,
        },
{
    text.parse::<u8>()
}

/// `str::parse::<u16>`: reads an optional `+` and decimal digits; anything else, and a
/// value over 65535, is an error.
#[verifier::external_body]
pub(crate) fn parse_u16(text: &str) -> (r: Result<u16, std::num::ParseIntError>)
    ensures
        match r {
            Ok(v) => unsigned_decimal(text.spec_bytes(), 0xffff) == Some(v as nat),
            Err(_) => unsigned_decimal(text.spec_bytes(), 0xffff) is None,
        },
{
    text.parse::<u16>()
}

/// `str::parse::<u64>`: reads an optional `+` and decimal digits; anything else, and a
/// value that does not fit in 64 bits, is an error.
#[verifier::external_body]
pub(crate) fn parse_u64(text: &str) -> (r: Result<u64, std::num::ParseIntError>)
    ensures
        match r {
            Ok(v) => unsigned_decimal(text.spec_bytes(), 0xffff_ffff_ffff_ffff) == Some(v as nat),
            Err(_) => unsigned_decimal(text.spec_bytes(), 0xffff_ffff_ffff_ffff) is None,
        },
{
    text.parse::<u64>()
}

/// The part of `bytes` from `from` up to `to`, where a string slice of those bytes
/// exists: both ends lie on character boundaries and are in order.
pub open spec fn str_range(bytes: Seq<u8>, from: int, to: int) -> Option<Seq<u8>> {
    if 0 <= from <= to && is_char_boundary(bytes, from) && is_char_boundary(bytes, to) {
        Some(bytes.subrange(from, to))
    } else {
        None
    }
}

/// `str::get` with a range: the sub-slice, or `None` where indexing would panic, which
/// is when an end is out of bounds or inside a character, or the ends are out of order.
#[verifier::external_body]
pub(crate) fn str_get(text: &str, from: usize, to: usize) -> (r: Option<&str>)
    ensures
        match r {
            Some(part) => str_range(text.spec_bytes(), from as int, to as int) == Some(
                part.spec_bytes(),
            ),
            None => str_range(text.spec_bytes(), from as int, to as int) is None,
        },
{
    text.get(from..to)
}

/// `std::io::ErrorKind::UnexpectedEof`, the kind of error of a read that meets the end
/// of its source too early. Nothing is claimed of the value.
#[verifier::external_body]
pub(crate) fn unexpected_eof() -> std::io::ErrorKind {
    std::io::ErrorKind::UnexpectedEof
}

/// `Box::<[u8]>::from` on a slice: a copy of the bytes on the heap.
#[verifier::external_body]
pub(crate) fn boxed(bytes: &[u8]) -> (r: Box<[u8]>)
    ensures
        r@ == bytes@,
{
    Box::from(bytes)
}

} // verus!
