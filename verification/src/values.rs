//! Values read out of decoded text: dates, track positions, copyright notices,
//! and the fixed layout of the reverb frame.

use vstd::prelude::*;
use vstd::string::StringSliceAdditionalSpecFns;
use vstd::utf8::{
    decode_utf8, encode_utf8, is_char_boundary, is_continuation_byte, pop_first_scalar,
    valid_first_scalar, valid_utf8,
};
use vstd::pervasive::unreached;
use crate::errors::{FrameParseErrorReason, ParseDateError, ParseTrackError, ReasonKind};
use crate::outside::{
    be16, is_digit, parse_u16, parse_u64, parse_u8, read_u16_be, str_get, str_range,
    unsigned_decimal, unsigned_digits,
};

verus! {

broadcast use vstd::utf8::group_utf8_lib;

/// A point in time, as precise as the text that gave it: `yyyy-MM-ddTHH:mm:ss`,
/// cut off after any part.
#[derive(Copy, Clone, Debug, PartialEq, Eq)]
pub struct Date {
    pub year: u16,
    pub month: Option<u8>,
    pub day: Option<u8>,
    pub hour: Option<u8>,
    pub minutes: Option<u8>,
    pub seconds: Option<u8>,
}

/// A position in a set, and the size of the set where it is given.
#[derive(Copy, Clone, Debug, PartialEq, Eq)]
pub struct Track {
    pub number: u64,
    pub max: Option<u64>,
}

/// A copyright notice: the year, then the holder.
#[derive(Clone, Debug)]
pub struct Copyright {
    pub year: u16,
    pub message: String,
}

/// What a `Copyright` holds.
pub struct CopyrightModel {
    pub year: u16,
    pub message: Seq<char>,
}

impl View for Copyright {
    type V = CopyrightModel;

    open spec fn view(&self) -> CopyrightModel {
        CopyrightModel { year: self.year, message: self.message@ }
    }
}

impl DeepView for Copyright {
    type V = CopyrightModel;

    open spec fn deep_view(&self) -> CopyrightModel {
        self.view()
    }
}

/// The settings of a reverb effect.
#[derive(Copy, Clone, Debug, PartialEq, Eq)]
pub struct Reverb {
    pub ms_left: u16,
    pub ms_right: u16,
    pub bounces_left: u8,
    pub bounces_right: u8,
    pub feedback_left_to_left: u8,
    pub feedback_left_to_right: u8,
    pub feedback_right_to_right: u8,
    pub feedback_right_to_left: u8,
    pub premix_left_to_right: u8,
    pub premix_right_to_left: u8,
}

/// One part of a date after the year. `Ok(None)`: the text ends before it.
/// `Err`: it is there and is no number up to 255.
pub open spec fn date_part(text: Seq<u8>, from: int, to: int) -> Result<Option<u8>, ()> {
    match str_range(text, from, to) {
        None => Ok(None),
        Some(part) => match unsigned_decimal(part, 0xff) {
            Some(v) => Ok(Some(v as u8)),
            None => Err(()),
        },
    }
}

/// The date that `text` writes, by the fixed places of its parts.
pub open spec fn date_of(text: Seq<u8>) -> Result<Date, ReasonKind> {
    match str_range(text, 0, 4) {
        None => Err(ReasonKind::DateMissingYear),
        Some(year_text) => {
            let year = unsigned_decimal(year_text, 0xffff);
            let month = date_part(text, 5, 7);
            let day = date_part(text, 8, 10);
            let hour = date_part(text, 11, 13);
            let minutes = date_part(text, 14, 16);
            let seconds = date_part(text, 17, 19);
            if year is Some && month is Ok && day is Ok && hour is Ok && minutes is Ok
                && seconds is Ok {
                Ok(
                    Date {
                        year: year->0 as u16,
                        month: month->Ok_0,
                        day: day->Ok_0,
                        hour: hour->Ok_0,
                        minutes: minutes->Ok_0,
                        seconds: seconds->Ok_0,
                    },
                )
            } else {
                Err(ReasonKind::DateNotANumber)
            }
        },
    }
}

/// The first place at or after `from` where `bytes` holds `value`, or the length of
/// `bytes` where there is none.
pub open spec fn find_byte(bytes: Seq<u8>, value: u8, from: int) -> int
    decreases bytes.len() - from,
    when from >= 0
{
    if from >= bytes.len() {
        bytes.len() as int
    } else if bytes[from] == value {
        from
    } else {
        find_byte(bytes, value, from + 1)
    }
}

/// The track position that `text` writes: a number, or a number, `/` and a number.
pub open spec fn track_of(text: Seq<u8>) -> Result<Track, ReasonKind> {
    let slash = find_byte(text, 0x2f, 0);
    let number = unsigned_decimal(text.subrange(0, slash), 0xffff_ffff_ffff_ffff);
    let max = unsigned_decimal(
        text.subrange(slash + 1, text.len() as int),
        0xffff_ffff_ffff_ffff,
    );
    if number is None {
        Err(ReasonKind::InvalidTrackNumber)
    } else if slash == text.len() {
        Ok(Track { number: number->0 as u64, max: None })
    } else if max is None {
        Err(ReasonKind::InvalidTrackNumber)
    } else {
        Ok(Track { number: number->0 as u64, max: Some(max->0 as u64) })
    }
}

/// The number of bytes that the year of a copyright notice takes, the one space
/// behind it included.
pub open spec fn copyright_year_len(text: Seq<u8>) -> int {
    if text.len() > 4 && text[4] == 0x20 {
        5
    } else {
        4
    }
}

/// The copyright notice that `text` writes: four bytes of year, at most one space,
/// and the holder.
pub open spec fn copyright_of(text: Seq<u8>) -> Result<CopyrightModel, ReasonKind> {
    if text.len() < 4 {
        Err(ReasonKind::FrameTooSmall)
    } else {
        match str_range(text, 0, 4) {
            None => Err(ReasonKind::NotANumber),
            Some(year_text) => match unsigned_decimal(year_text, 0xffff) {
                None => Err(ReasonKind::NotANumber),
                Some(year) => Ok(
                    CopyrightModel {
                        year: year as u16,
                        message: decode_utf8(text.skip(copyright_year_len(text))),
                    },
                ),
            },
        }
    }
}

/// The reverb settings that `frame` holds.
pub open spec fn reverb_of(frame: Seq<u8>) -> Result<Reverb, ReasonKind> {
    if frame.len() < 12 {
        Err(ReasonKind::FrameTooSmall)
    } else {
        Ok(
            Reverb {
                ms_left: be16(frame) as u16,
                ms_right: be16(frame.skip(2)) as u16,
                bounces_left: frame[4],
                bounces_right: frame[5],
                feedback_left_to_left: frame[6],
                feedback_left_to_right: frame[7],
                feedback_right_to_right: frame[8],
                feedback_right_to_left: frame[9],
                premix_left_to_right: frame[10],
                premix_right_to_left: frame[11],
            },
        )
    }
}

/// A character that takes one byte ends on a character boundary.
pub proof fn lemma_boundary_after_ascii(bytes: Seq<u8>, i: int)
    requires
        valid_utf8(bytes),
        0 <= i < bytes.len(),
        bytes[i] < 0x80,
    ensures
        is_char_boundary(bytes, i),
        is_char_boundary(bytes, i + 1),
{
    vstd::utf8::is_char_boundary_iff_not_is_continuation_byte(bytes, i);
    if i + 1 == bytes.len() {
        vstd::utf8::is_char_boundary_start_end_of_seq(bytes);
    } else {
        vstd::utf8::valid_utf8_split(bytes, i);
        let suffix = bytes.subrange(i, bytes.len() as int);
        assert(suffix[0] == bytes[i]);
        assert(valid_first_scalar(suffix));
        let rest = pop_first_scalar(suffix);
        assert(rest =~= bytes.subrange(i + 1, bytes.len() as int));
        assert(valid_utf8(rest));
        assert(rest.len() > 0);
        assert(valid_first_scalar(rest));
        assert(rest[0] == bytes[i + 1]);
        assert(!is_continuation_byte(bytes[i + 1]));
        vstd::utf8::is_char_boundary_iff_not_is_continuation_byte(bytes, i + 1);
    }
}

/// Text that is cut inside a character is no number: one of its bytes is no digit.
pub proof fn lemma_not_a_number_inside_char(text: Seq<u8>, at: int, max: nat)
    requires
        valid_utf8(text),
        1 <= at <= text.len(),
        !is_char_boundary(text, at),
    ensures
        unsigned_decimal(text, max) is None,
{
    vstd::utf8::is_char_boundary_start_end_of_seq(text);
    vstd::utf8::is_char_boundary_iff_not_is_continuation_byte(text, at);
    assert(is_continuation_byte(text[at]));
    let digits = unsigned_digits(text);
    if digits.len() == text.len() {
        assert(!is_digit(digits[at]));
    } else {
        assert(digits[at - 1] == text[at]);
        assert(!is_digit(digits[at - 1]));
    }
}

/// Reads one part of a date after the year.
fn parse_date_part(s: &str, from: usize, to: usize) -> (r: Result<
    Option<u8>,
    std::num::ParseIntError,
>)
    ensures
        match r {
            Ok(v) => date_part(s.spec_bytes(), from as int, to as int) == Ok::<Option<u8>, ()>(v),
            Err(_) => date_part(s.spec_bytes(), from as int, to as int) is Err,
        },
{
    match str_get(s, from, to) {
        None => Ok(None),
        Some(part) => match parse_u8(part) {
            Ok(v) => Ok(Some(v)),
            Err(e) => Err(e),
        },
    }
}

impl Date {
    /// Reads a date of the form `yyyy-MM-ddTHH:mm:ss`, cut off after any part.
    pub fn from_str(s: &str) -> (r: Result<Date, ParseDateError>)
        ensures
            match r {
                Ok(date) => date_of(s.spec_bytes()) == Ok::<Date, ReasonKind>(date),
                Err(e) => date_of(s.spec_bytes()) == Err::<Date, ReasonKind>(e.kind()),
            },
    {
        let year: u16 = match str_get(s, 0, 4) {
            None => {
                return Err(ParseDateError::MissingYear);
            },
            Some(part) => match parse_u16(part) {
                Ok(v) => v,
                Err(e) => {
                    return Err(ParseDateError::ParseIntError(e));
                },
            },
        };
        let month: Option<u8> = match parse_date_part(s, 5, 7) {
            Ok(v) => v,
            Err(e) => {
                return Err(ParseDateError::ParseIntError(e));
            },
        };
        let day: Option<u8> = match parse_date_part(s, 8, 10) {
            Ok(v) => v,
            Err(e) => {
                return Err(ParseDateError::ParseIntError(e));
            },
        };
        let hour: Option<u8> = match parse_date_part(s, 11, 13) {
            Ok(v) => v,
            Err(e) => {
                return Err(ParseDateError::ParseIntError(e));
            },
        };
        let minutes: Option<u8> = match parse_date_part(s, 14, 16) {
            Ok(v) => v,
            Err(e) => {
                return Err(ParseDateError::ParseIntError(e));
            },
        };
        let seconds: Option<u8> = match parse_date_part(s, 17, 19) {
            Ok(v) => v,
            Err(e) => {
                return Err(ParseDateError::ParseIntError(e));
            },
        };
        Ok(Date { year, month, day, hour, minutes, seconds })
    }
}

/// Finds the first `/` of `bytes`.
fn find_slash(bytes: &[u8]) -> (r: usize)
    ensures
        r == find_byte(bytes@, 0x2f, 0),
        r <= bytes@.len(),
        r < bytes@.len() ==> bytes@[r as int] == 0x2f,
{
    let mut i: usize = 0;
    while i < bytes.len() && bytes[i] != 0x2f
        invariant
            i <= bytes@.len(),
            find_byte(bytes@, 0x2f, i as int) == find_byte(bytes@, 0x2f, 0),
        decreases bytes@.len() - i,
    {
        i = i + 1;
    }
    i
}

impl Track {
    /// Reads `number` or `number/max`.
    pub fn from_str(s: &str) -> (r: Result<Track, ParseTrackError>)
        ensures
            match r {
                Ok(track) => track_of(s.spec_bytes()) == Ok::<Track, ReasonKind>(track),
                Err(e) => track_of(s.spec_bytes()) == Err::<Track, ReasonKind>(e.kind()),
            },
    {
        let bytes = s.as_bytes();
        let slash: usize = find_slash(bytes);
        proof {
            if slash < bytes@.len() {
                lemma_boundary_after_ascii(bytes@, slash as int);
            } else {
                vstd::utf8::is_char_boundary_start_end_of_seq(bytes@);
            }
        }
        let (number_text, rest) = s.split_at(slash);
        let number: u64 = match parse_u64(number_text) {
            Ok(v) => v,
            Err(e) => {
                return Err(ParseTrackError::InvalidTrackNumber(e));
            },
        };
        if slash == bytes.len() {
            return Ok(Track { number, max: None });
        }
        proof {
            assert(rest.spec_bytes()[0] == 0x2f);
            lemma_boundary_after_ascii(rest.spec_bytes(), 0);
        }
        let (_, max_text) = rest.split_at(1);
        assert(max_text.spec_bytes() =~= bytes@.subrange(slash + 1, bytes@.len() as int));
        match parse_u64(max_text) {
            Ok(v) => Ok(Track { number, max: Some(v) }),
            Err(e) => Err(ParseTrackError::InvalidTrackNumber(e)),
        }
    }
}

/// Reads a copyright notice: the year in the first four bytes, at most one space,
/// and the holder.
pub fn decode_copyright_frame(text: String) -> (r: Result<Copyright, FrameParseErrorReason>)
    ensures
        match r {
            Ok(c) => copyright_of(encode_utf8(text@)) == Ok::<CopyrightModel, ReasonKind>(c@),
            Err(e) => copyright_of(encode_utf8(text@)) == Err::<CopyrightModel, ReasonKind>(
                e.kind(),
            ),
        },
{
    let s: &str = text.as_str();
    let bytes = s.as_bytes();
    let n: usize = bytes.len();
    if n < 4 {
        return Err(FrameParseErrorReason::FrameTooSmall);
    }
    let year: u16 = match str_get(s, 0, 4) {
        None => {
            proof {
                lemma_not_a_number_inside_char(bytes@, 4, 0xffff);
            }
            match parse_u16(s) {
                Err(e) => {
                    return Err(FrameParseErrorReason::ParseIntError(e));
                },
                Ok(_) => unreached(),
            }
        },
        Some(part) => match parse_u16(part) {
            Ok(v) => v,
            Err(e) => {
                return Err(FrameParseErrorReason::ParseIntError(e));
            },
        },
    };
    let skip: usize = if n > 4 && bytes[4] == 0x20 {
        5
    } else {
        4
    };
    proof {
        if skip == 5 {
            lemma_boundary_after_ascii(bytes@, 4);
        }
        vstd::utf8::is_char_boundary_start_end_of_seq(bytes@);
    }
    match str_get(s, skip, n) {
        Some(message) => {
            assert(message.spec_bytes() =~= bytes@.skip(skip as int));
            assert(decode_utf8(encode_utf8(message@)) == message@);
            Ok(Copyright { year, message: message.to_owned() })
        },
        None => unreached(),
    }
}

/// Reads the twelve bytes of a reverb frame.
pub fn decode_reverb_frame(frame: &[u8]) -> (r: Result<Reverb, FrameParseErrorReason>)
    ensures
        match r {
            Ok(reverb) => reverb_of(frame@) == Ok::<Reverb, ReasonKind>(reverb),
            Err(e) => reverb_of(frame@) == Err::<Reverb, ReasonKind>(e.kind()),
        },
{
    if frame.len() < 12 {
        return Err(FrameParseErrorReason::FrameTooSmall);
    }
    let left: &[u8] = &frame[0..2];
    let right: &[u8] = &frame[2..4];
    assert(be16(right@) == be16(frame@.skip(2)));
    Ok(
        Reverb {
            ms_left: read_u16_be(left),
            ms_right: read_u16_be(right),
            bounces_left: frame[4],
            bounces_right: frame[5],
            feedback_left_to_left: frame[6],
            feedback_left_to_right: frame[7],
            feedback_right_to_right: frame[8],
            feedback_right_to_left: frame[9],
            premix_left_to_right: frame[10],
            premix_right_to_left: frame[11],
        },
    )
}

} // verus!
