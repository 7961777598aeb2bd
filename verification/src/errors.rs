//! The errors of frame decoding, in layers, and how one layer turns into the next.

use vstd::prelude::*;
use vstd::std_specs::convert::FromSpecImpl;
use std::num::ParseIntError;
use crate::text::TextDecodeError;

verus! {

/// A track position that is no number.
#[derive(Clone, Debug)]
pub enum ParseTrackError {
    InvalidTrackNumber(ParseIntError),
}

/// A date without a year, or with a part that is no number.
#[derive(Clone, Debug)]
pub enum ParseDateError {
    MissingYear,
    ParseIntError(ParseIntError),
}

/// Why a frame could not be decoded.
#[derive(Clone, Debug)]
pub enum FrameParseErrorReason {
    EmptyFrame,
    UnsupportedFrameFeature,
    FrameTooSmall,
    MissingNullTerminator,
    MissingValueInMapFrame,
    ParseDateError(ParseDateError),
    ParseIntError(ParseIntError),
    ParseTrackError(ParseTrackError),
    TextDecodeError(TextDecodeError),
}

/// A frame that could not be decoded, with its identifier.
#[derive(Clone, Debug)]
pub struct FrameParseError {
    pub name: [u8; 4],
    pub reason: FrameParseErrorReason,
}

/// What a reason says, without the value that the standard library attached to a
/// number it could not read.
pub enum ReasonKind {
    EmptyFrame,
    UnsupportedFrameFeature,
    FrameTooSmall,
    MissingNullTerminator,
    MissingValueInMapFrame,
    DateMissingYear,
    DateNotANumber,
    NotANumber,
    InvalidTrackNumber,
    Text(TextDecodeError),
}

impl ParseDateError {
    pub open spec fn kind(self) -> ReasonKind {
        match self {
            ParseDateError::MissingYear => ReasonKind::DateMissingYear,
            ParseDateError::ParseIntError(_) => ReasonKind::DateNotANumber,
        }
    }
}

impl ParseTrackError {
    pub open spec fn kind(self) -> ReasonKind {
        ReasonKind::InvalidTrackNumber
    }
}

impl FrameParseErrorReason {
    pub open spec fn kind(self) -> ReasonKind {
        match self {
            FrameParseErrorReason::EmptyFrame => ReasonKind::EmptyFrame,
            FrameParseErrorReason::UnsupportedFrameFeature => ReasonKind::UnsupportedFrameFeature,
            FrameParseErrorReason::FrameTooSmall => ReasonKind::FrameTooSmall,
            FrameParseErrorReason::MissingNullTerminator => ReasonKind::MissingNullTerminator,
            FrameParseErrorReason::MissingValueInMapFrame => ReasonKind::MissingValueInMapFrame,
            FrameParseErrorReason::ParseDateError(e) => e.kind(),
            FrameParseErrorReason::ParseIntError(_) => ReasonKind::NotANumber,
            FrameParseErrorReason::ParseTrackError(e) => e.kind(),
            FrameParseErrorReason::TextDecodeError(e) => ReasonKind::Text(e),
        }
    }
}

impl From<ParseIntError> for ParseTrackError {
    fn from(e: ParseIntError) -> (r: ParseTrackError) {
        ParseTrackError::InvalidTrackNumber(e)
    }
}

impl FromSpecImpl<ParseIntError> for ParseTrackError {
    open spec fn obeys_from_spec() -> bool {
        true
    }

    open spec fn from_spec(e: ParseIntError) -> ParseTrackError {
        ParseTrackError::InvalidTrackNumber(e)
    }
}

impl From<ParseIntError> for ParseDateError {
    fn from(e: ParseIntError) -> (r: ParseDateError) {
        ParseDateError::ParseIntError(e)
    }
}

impl FromSpecImpl<ParseIntError> for ParseDateError {
    open spec fn obeys_from_spec() -> bool {
        true
    }

    open spec fn from_spec(e: ParseIntError) -> ParseDateError {
        ParseDateError::ParseIntError(e)
    }
}

impl From<ParseIntError> for FrameParseErrorReason {
    fn from(e: ParseIntError) -> (r: FrameParseErrorReason) {
        FrameParseErrorReason::ParseIntError(e)
    }
}

impl FromSpecImpl<ParseIntError> for FrameParseErrorReason {
    open spec fn obeys_from_spec() -> bool {
        true
    }

    open spec fn from_spec(e: ParseIntError) -> FrameParseErrorReason {
        FrameParseErrorReason::ParseIntError(e)
    }
}

impl From<TextDecodeError> for FrameParseErrorReason {
    fn from(e: TextDecodeError) -> (r: FrameParseErrorReason) {
        FrameParseErrorReason::TextDecodeError(e)
    }
}

impl FromSpecImpl<TextDecodeError> for FrameParseErrorReason {
    open spec fn obeys_from_spec() -> bool {
        true
    }

    open spec fn from_spec(e: TextDecodeError) -> FrameParseErrorReason {
        FrameParseErrorReason::TextDecodeError(e)
    }
}

impl From<ParseTrackError> for FrameParseErrorReason {
    fn from(e: ParseTrackError) -> (r: FrameParseErrorReason) {
        FrameParseErrorReason::ParseTrackError(e)
    }
}

impl FromSpecImpl<ParseTrackError> for FrameParseErrorReason {
    open spec fn obeys_from_spec() -> bool {
        true
    }

    open spec fn from_spec(e: ParseTrackError) -> FrameParseErrorReason {
        FrameParseErrorReason::ParseTrackError(e)
    }
}

impl From<ParseDateError> for FrameParseErrorReason {
    fn from(e: ParseDateError) -> (r: FrameParseErrorReason) {
        FrameParseErrorReason::ParseDateError(e)
    }
}

impl FromSpecImpl<ParseDateError> for FrameParseErrorReason {
    open spec fn obeys_from_spec() -> bool {
        true
    }

    open spec fn from_spec(e: ParseDateError) -> FrameParseErrorReason {
        FrameParseErrorReason::ParseDateError(e)
    }
}

impl From<std::string::FromUtf16Error> for TextDecodeError {
    fn from(e: std::string::FromUtf16Error) -> (r: TextDecodeError) {
        TextDecodeError::InvalidUtf16
    }
}

impl FromSpecImpl<std::string::FromUtf16Error> for TextDecodeError {
    open spec fn obeys_from_spec() -> bool {
        true
    }

    open spec fn from_spec(e: std::string::FromUtf16Error) -> TextDecodeError {
        TextDecodeError::InvalidUtf16
    }
}

impl From<std::str::Utf8Error> for TextDecodeError {
    fn from(e: std::str::Utf8Error) -> (r: TextDecodeError) {
        TextDecodeError::InvalidUtf8
    }
}

impl FromSpecImpl<std::str::Utf8Error> for TextDecodeError {
    open spec fn obeys_from_spec() -> bool {
        true
    }

    open spec fn from_spec(e: std::str::Utf8Error) -> TextDecodeError {
        TextDecodeError::InvalidUtf8
    }
}

} // verus!
