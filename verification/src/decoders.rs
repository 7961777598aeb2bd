//! The decoders of frame bodies, one for each shape, and the dispatch by identifier.

use vstd::prelude::*;
use vstd::slice::slice_to_vec;
use vstd::string::StringSliceAdditionalSpecFns;
use vstd::utf8::encode_utf8;
use crate::errors::{FrameParseErrorReason, ParseDateError, ParseTrackError, ReasonKind};
use crate::frames::{
    copyrights_frame_data, dates_frame_data, frame_shape, lang_text_frame_data,
    numbers_frame_data, people_frame_data, shape_of, text_frame_data, tracks_frame_data,
    url_frame_data, FrameContent, FrameData, FrameDataModel, FrameShape, LangDescriptionText, Priv,
    Txxx, Unknown,
};
use crate::genres::{expand_genres, genre_texts};
use crate::ids;
use crate::outside::{be32, parse_u64, read_u32_be, unsigned_decimal};
use crate::people::TextMap;
use crate::text::{
    decode_latin1, decode_text_frame, decode_text_segment, decode_text_segments, encoding_of,
    find_terminator, first_terminator, latin1, segment_text, segments_text, text_frame,
    TextDecodeError, TextEncoding,
};
use crate::values::{
    copyright_of, date_of, decode_copyright_frame, decode_reverb_frame, reverb_of, track_of,
    Copyright, CopyrightModel, Date, Reverb, Track,
};

verus! {

/// A value that is read from one string of a text frame.
pub trait ParseText: Sized {
    /// What goes wrong when a string holds no such value.
    type Error;

    /// The value that the bytes of a string write, or why there is none.
    spec fn parsed(text: Seq<u8>) -> Result<Self, ReasonKind>;

    /// What an error says.
    spec fn kind_of(e: Self::Error) -> ReasonKind;

    /// Reads the value from `text`.
    fn parse_text(text: &str) -> (r: Result<Self, Self::Error>)
        ensures
            match r {
                Ok(v) => Self::parsed(text.spec_bytes()) == Ok::<Self, ReasonKind>(v),
                Err(e) => Self::parsed(text.spec_bytes()) == Err::<Self, ReasonKind>(
                    Self::kind_of(e),
                ),
            },
    ;

    /// Turns the error into the reason for which a frame fails.
    fn reason(e: Self::Error) -> (r: FrameParseErrorReason)
        ensures
            r.kind() == Self::kind_of(e),
    ;
}

impl ParseText for u64 {
    type Error = std::num::ParseIntError;

    open spec fn parsed(text: Seq<u8>) -> Result<u64, ReasonKind> {
        match unsigned_decimal(text, 0xffff_ffff_ffff_ffff) {
            Some(v) => Ok(v as u64),
            None => Err(ReasonKind::NotANumber),
        }
    }

    open spec fn kind_of(e: std::num::ParseIntError) -> ReasonKind {
        ReasonKind::NotANumber
    }

    fn parse_text(text: &str) -> (r: Result<u64, std::num::ParseIntError>) {
        parse_u64(text)
    }

    fn reason(e: std::num::ParseIntError) -> (r: FrameParseErrorReason) {
        FrameParseErrorReason::ParseIntError(e)
    }
}

impl ParseText for Date {
    type Error = ParseDateError;

    open spec fn parsed(text: Seq<u8>) -> Result<Date, ReasonKind> {
        date_of(text)
    }

    open spec fn kind_of(e: ParseDateError) -> ReasonKind {
        e.kind()
    }

    fn parse_text(text: &str) -> (r: Result<Date, ParseDateError>) {
        Date::from_str(text)
    }

    fn reason(e: ParseDateError) -> (r: FrameParseErrorReason) {
        FrameParseErrorReason::ParseDateError(e)
    }
}

impl ParseText for Track {
    type Error = ParseTrackError;

    open spec fn parsed(text: Seq<u8>) -> Result<Track, ReasonKind> {
        track_of(text)
    }

    open spec fn kind_of(e: ParseTrackError) -> ReasonKind {
        e.kind()
    }

    fn parse_text(text: &str) -> (r: Result<Track, ParseTrackError>) {
        Track::from_str(text)
    }

    fn reason(e: ParseTrackError) -> (r: FrameParseErrorReason) {
        FrameParseErrorReason::ParseTrackError(e)
    }
}

/// `front` before what `rest` holds, or the failure of `rest`.
pub open spec fn put_before<A>(front: Seq<A>, rest: Result<Seq<A>, ReasonKind>) -> Result<
    Seq<A>,
    ReasonKind,
> {
    match rest {
        Ok(tail) => Ok(front + tail),
        Err(e) => Err(e),
    }
}

/// With nothing in front, what follows is the whole.
pub proof fn lemma_put_before_nothing<A>(rest: Result<Seq<A>, ReasonKind>)
    ensures
        put_before(Seq::<A>::empty(), rest) == rest,
{
    match rest {
        Ok(tail) => {
            assert(Seq::<A>::empty() + tail =~= tail);
        },
        Err(_) => {},
    }
}

/// The values that the strings `texts` write, or the failure of the first that writes
/// none.
pub open spec fn parse_each<T: ParseText>(texts: Seq<Seq<char>>) -> Result<Seq<T>, ReasonKind>
    decreases texts.len(),
{
    if texts.len() == 0 {
        Ok(Seq::empty())
    } else {
        match T::parsed(encode_utf8(texts[0])) {
            Ok(v) => put_before(seq![v], parse_each::<T>(texts.drop_first())),
            Err(e) => Err(e),
        }
    }
}

/// The copyright notices that the strings `texts` write, or the failure of the first
/// that writes none.
pub open spec fn copyrights_of(texts: Seq<Seq<char>>) -> Result<Seq<CopyrightModel>, ReasonKind>
    decreases texts.len(),
{
    if texts.len() == 0 {
        Ok(Seq::empty())
    } else {
        match copyright_of(encode_utf8(texts[0])) {
            Ok(v) => put_before(seq![v], copyrights_of(texts.drop_first())),
            Err(e) => Err(e),
        }
    }
}

/// A description, its terminator, and the text behind it.
pub open spec fn description_text(encoding: TextEncoding, bytes: Seq<u8>) -> Result<
    (Seq<char>, Seq<Seq<char>>),
    ReasonKind,
> {
    match first_terminator(bytes, encoding.width(), 0) {
        None => Err(ReasonKind::MissingNullTerminator),
        Some(end) => match segment_text(encoding, bytes.subrange(0, end)) {
            Err(e) => Err(ReasonKind::Text(e)),
            Ok(description) => match segments_text(
                encoding,
                bytes.subrange(end + encoding.width(), bytes.len() as int),
            ) {
                Err(e) => Err(ReasonKind::Text(e)),
                Ok(text) => Ok((description, text)),
            },
        },
    }
}

/// The content of a comment or of lyrics: the encoding, three bytes of language, the
/// description and the text.
pub open spec fn lang_text_of(frame: Seq<u8>) -> Result<FrameContent, ReasonKind> {
    if frame.len() < 5 {
        Err(ReasonKind::FrameTooSmall)
    } else {
        match encoding_of(frame[0]) {
            Err(e) => Err(ReasonKind::Text(e)),
            Ok(encoding) => match description_text(
                encoding,
                frame.subrange(4, frame.len() as int),
            ) {
                Err(e) => Err(e),
                Ok(pair) => Ok(
                    FrameContent::LangText {
                        language: frame.subrange(1, 4),
                        description: pair.0,
                        text: pair.1,
                    },
                ),
            },
        }
    }
}

/// The content of a user-defined text frame: the encoding, the description and the
/// text.
pub open spec fn user_text_of(frame: Seq<u8>) -> Result<FrameContent, ReasonKind> {
    if frame.len() < 2 {
        Err(ReasonKind::FrameTooSmall)
    } else {
        match encoding_of(frame[0]) {
            Err(e) => Err(ReasonKind::Text(e)),
            Ok(encoding) => match description_text(
                encoding,
                frame.subrange(1, frame.len() as int),
            ) {
                Err(e) => Err(e),
                Ok(pair) => Ok(FrameContent::UserText { description: pair.0, text: pair.1 }),
            },
        }
    }
}

/// The content of a private frame: the owner up to the first zero byte, then the
/// data.
pub open spec fn private_of(frame: Seq<u8>) -> Result<FrameContent, ReasonKind> {
    match first_terminator(frame, 1, 0) {
        None => Err(ReasonKind::MissingNullTerminator),
        Some(end) => Ok(
            FrameContent::Private {
                owner: latin1(frame.subrange(0, end)),
                data: frame.subrange(end + 1, frame.len() as int),
            },
        ),
    }
}

/// The link that a URL frame holds: the body without one zero byte at its end.
pub open spec fn url_of(frame: Seq<u8>) -> Seq<char>
    recommends
        frame.len() > 0,
{
    if frame.last() == 0 {
        latin1(frame.drop_last())
    } else {
        latin1(frame)
    }
}

/// `so_far` with the key `key` and the value `value` put in, where both were decoded.
pub open spec fn with_pair(
    so_far: Map<Seq<char>, Seq<char>>,
    key: Result<Seq<char>, TextDecodeError>,
    value: Result<Seq<char>, TextDecodeError>,
) -> Result<Map<Seq<char>, Seq<char>>, ReasonKind> {
    match key {
        Err(e) => Err(ReasonKind::Text(e)),
        Ok(k) => match value {
            Err(e) => Err(ReasonKind::Text(e)),
            Ok(v) => Ok(so_far.insert(k, v)),
        },
    }
}

/// The pairs of keys and values in `bytes` from `start` on, put into `so_far`. Each
/// key ends at a terminator. A value ends at a terminator or, if it is the last and not
/// empty, at the end of the bytes. A key without a value is an error; bytes that
/// follow the last pair without a terminator are left out.
pub open spec fn people_from(
    encoding: TextEncoding,
    bytes: Seq<u8>,
    start: int,
    so_far: Map<Seq<char>, Seq<char>>,
) -> Result<Map<Seq<char>, Seq<char>>, ReasonKind>
    decreases bytes.len() - start,
    when start >= 0
{
    let w = encoding.width();
    match first_terminator(bytes, w, start) {
        None => Ok(so_far),
        Some(key_end) => {
            let key = segment_text(encoding, bytes.subrange(start, key_end));
            match first_terminator(bytes, w, key_end + w) {
                Some(value_end) => {
                    let value = segment_text(encoding, bytes.subrange(key_end + w, value_end));
                    match with_pair(so_far, key, value) {
                        Err(e) => Err(e),
                        Ok(next) => if start < value_end + w <= bytes.len() {
                            people_from(encoding, bytes, value_end + w, next)
                        } else {
                            Ok(next)
                        },
                    }
                },
                None => if key_end + w == bytes.len() {
                    Err(ReasonKind::MissingValueInMapFrame)
                } else {
                    let value = segment_text(
                        encoding,
                        bytes.subrange(key_end + w, bytes.len() as int),
                    );
                    with_pair(so_far, key, value)
                },
            }
        },
    }
}

/// The involved people that a frame lists: the encoding byte, then keys and values
/// in turn.
pub open spec fn people_of(frame: Seq<u8>) -> Result<Map<Seq<char>, Seq<char>>, ReasonKind>
    recommends
        frame.len() > 0,
{
    match encoding_of(frame[0]) {
        Err(e) => Err(ReasonKind::Text(e)),
        Ok(encoding) => people_from(encoding, frame.skip(1), 0, Map::empty()),
    }
}

/// What a text frame holds, as the reason for which a frame fails where it holds none.
pub open spec fn texts_of_frame(frame: Seq<u8>) -> Result<Seq<Seq<char>>, ReasonKind> {
    match text_frame(frame) {
        Ok(texts) => Ok(texts),
        Err(e) => Err(ReasonKind::Text(e)),
    }
}

/// `content` of the values in `values`, or their failure.
pub open spec fn content_with<A>(
    values: Result<A, ReasonKind>,
    content: spec_fn(A) -> FrameContent,
) -> Result<FrameContent, ReasonKind> {
    match values {
        Ok(v) => Ok(content(v)),
        Err(e) => Err(e),
    }
}

/// The content of a body of the shape `shape`.
pub open spec fn content_of(shape: FrameShape, body: Seq<u8>) -> Result<FrameContent, ReasonKind>
    recommends
        body.len() > 0,
{
    match shape {
        FrameShape::Text => content_with(
            texts_of_frame(body),
            |t: Seq<Seq<char>>| FrameContent::Text(t),
        ),
        FrameShape::Genre => content_with(
            texts_of_frame(body),
            |t: Seq<Seq<char>>| FrameContent::Text(genre_texts(t)),
        ),
        FrameShape::Numbers => match texts_of_frame(body) {
            Err(e) => Err(e),
            Ok(t) => content_with(parse_each::<u64>(t), |v: Seq<u64>| FrameContent::Numbers(v)),
        },
        FrameShape::Dates => match texts_of_frame(body) {
            Err(e) => Err(e),
            Ok(t) => content_with(parse_each::<Date>(t), |v: Seq<Date>| FrameContent::Dates(v)),
        },
        FrameShape::Tracks => match texts_of_frame(body) {
            Err(e) => Err(e),
            Ok(t) => content_with(
                parse_each::<Track>(t),
                |v: Seq<Track>| FrameContent::Tracks(v),
            ),
        },
        FrameShape::Copyrights => match texts_of_frame(body) {
            Err(e) => Err(e),
            Ok(t) => content_with(
                copyrights_of(t),
                |v: Seq<CopyrightModel>| FrameContent::Copyrights(v),
            ),
        },
        FrameShape::People => content_with(
            people_of(body),
            |m: Map<Seq<char>, Seq<char>>| FrameContent::People(m),
        ),
        FrameShape::Url => Ok(FrameContent::Url(url_of(body))),
        FrameShape::LangText => lang_text_of(body),
        FrameShape::UserText => user_text_of(body),
        FrameShape::Private => private_of(body),
        FrameShape::Reverb => content_with(reverb_of(body), |v: Reverb| FrameContent::Reverb(v)),
        FrameShape::Unknown => Ok(FrameContent::Unknown(body)),
    }
}

/// What the frame with the identifier `id` and the body `body` holds.
pub open spec fn frame_data_of(id: u32, body: Seq<u8>) -> Result<FrameDataModel, ReasonKind>
    recommends
        body.len() > 0,
{
    match content_of(shape_of(id), body) {
        Ok(content) => Ok(FrameDataModel { id, content }),
        Err(e) => Err(e),
    }
}

/// Reads one value from each string.
pub fn map_parse<T: ParseText>(str_vec: Vec<String>) -> (r: Result<Vec<T>, T::Error>)
    ensures
        match r {
            Ok(v) => parse_each::<T>(str_vec.deep_view()) == Ok::<Seq<T>, ReasonKind>(v@),
            Err(e) => parse_each::<T>(str_vec.deep_view()) == Err::<Seq<T>, ReasonKind>(
                T::kind_of(e),
            ),
        },
{
    let ghost texts = str_vec.deep_view();
    let mut new_vec: Vec<T> = Vec::new();
    let mut i: usize = 0;
    proof {
        assert(texts.skip(0) =~= texts);
        lemma_put_before_nothing(parse_each::<T>(texts));
    }
    while i < str_vec.len()
        invariant
            i <= str_vec@.len(),
            texts == str_vec.deep_view(),
            parse_each::<T>(texts) == put_before(new_vec@, parse_each::<T>(texts.skip(i as int))),
        decreases str_vec@.len() - i,
    {
        let ghost rest = texts.skip(i as int);
        let ghost before = new_vec@;
        assert(rest[0] == str_vec@[i as int]@);
        assert(rest.drop_first() =~= texts.skip(i + 1));
        match T::parse_text(str_vec[i].as_str()) {
            Ok(v) => {
                new_vec.push(v);
                proof {
                    match parse_each::<T>(texts.skip(i + 1)) {
                        Ok(t) => {
                            assert(before + (seq![v] + t) =~= before.push(v) + t);
                        },
                        Err(_) => {},
                    }
                }
            },
            Err(e) => {
                return Err(e);
            },
        }
        i = i + 1;
    }
    assert(texts.skip(i as int) =~= Seq::<Seq<char>>::empty());
    assert(new_vec@ + Seq::<T>::empty() =~= new_vec@);
    Ok(new_vec)
}

/// True when an executable result is the outcome `expected`.
pub open spec fn is_values<T>(r: Result<Vec<T>, FrameParseErrorReason>, expected: Result<
    Seq<T>,
    ReasonKind,
>) -> bool {
    match r {
        Ok(v) => expected == Ok::<Seq<T>, ReasonKind>(v@),
        Err(e) => expected == Err::<Seq<T>, ReasonKind>(e.kind()),
    }
}

/// Reads a text frame of which each string writes one value.
pub fn decode_values_frame<T: ParseText>(frame: &[u8]) -> (r: Result<
    Vec<T>,
    FrameParseErrorReason,
>)
    requires
        frame@.len() > 0,
    ensures
        is_values(
            r,
            match texts_of_frame(frame@) {
                Err(e) => Err(e),
                Ok(t) => parse_each::<T>(t),
            },
        ),
{
    match decode_text_frame(frame) {
        Err(e) => Err(FrameParseErrorReason::TextDecodeError(e)),
        Ok(texts) => match map_parse::<T>(texts) {
            Ok(v) => Ok(v),
            Err(e) => Err(T::reason(e)),
        },
    }
}

/// Reads a text frame of which each string is a copyright notice.
pub fn decode_copyrights_frame(frame: &[u8]) -> (r: Result<Vec<Copyright>, FrameParseErrorReason>)
    requires
        frame@.len() > 0,
    ensures
        match r {
            Ok(v) => (match texts_of_frame(frame@) {
                Err(e) => Err(e),
                Ok(t) => copyrights_of(t),
            }) == Ok::<Seq<CopyrightModel>, ReasonKind>(v.deep_view()),
            Err(e) => (match texts_of_frame(frame@) {
                Err(e) => Err(e),
                Ok(t) => copyrights_of(t),
            }) == Err::<Seq<CopyrightModel>, ReasonKind>(e.kind()),
        },
{
    let segments = match decode_text_frame(frame) {
        Err(e) => {
            return Err(FrameParseErrorReason::TextDecodeError(e));
        },
        Ok(texts) => texts,
    };
    let ghost texts = segments.deep_view();
    let mut new_vec: Vec<Copyright> = Vec::new();
    let mut i: usize = 0;
    proof {
        assert(texts.skip(0) =~= texts);
        assert(new_vec.deep_view() =~= Seq::<CopyrightModel>::empty());
        lemma_put_before_nothing(copyrights_of(texts));
    }
    while i < segments.len()
        invariant
            i <= segments@.len(),
            texts == segments.deep_view(),
            texts_of_frame(frame@) == Ok::<Seq<Seq<char>>, ReasonKind>(texts),
            copyrights_of(texts) == put_before(
                new_vec.deep_view(),
                copyrights_of(texts.skip(i as int)),
            ),
        decreases segments@.len() - i,
    {
        let ghost rest = texts.skip(i as int);
        let ghost before = new_vec.deep_view();
        assert(rest[0] == segments@[i as int]@);
        assert(rest.drop_first() =~= texts.skip(i + 1));
        match decode_copyright_frame(segments[i].clone()) {
            Ok(v) => {
                new_vec.push(v);
                assert(new_vec.deep_view() =~= before.push(v@));
                proof {
                    match copyrights_of(texts.skip(i + 1)) {
                        Ok(t) => {
                            assert(before + (seq![v@] + t) =~= before.push(v@) + t);
                        },
                        Err(_) => {},
                    }
                }
            },
            Err(e) => {
                return Err(e);
            },
        }
        i = i + 1;
    }
    assert(texts.skip(i as int) =~= Seq::<Seq<char>>::empty());
    assert(new_vec.deep_view() + Seq::<CopyrightModel>::empty() =~= new_vec.deep_view());
    Ok(new_vec)
}

/// Reads a description, its terminator, and the text behind it.
pub fn decode_description_text(encoding: TextEncoding, bytes: &[u8]) -> (r: Result<
    (String, Vec<String>),
    FrameParseErrorReason,
>)
    ensures
        match r {
            Ok(pair) => description_text(encoding, bytes@) == Ok::<
                (Seq<char>, Seq<Seq<char>>),
                ReasonKind,
            >((pair.0@, pair.1.deep_view())),
            Err(e) => description_text(encoding, bytes@) == Err::<
                (Seq<char>, Seq<Seq<char>>),
                ReasonKind,
            >(e.kind()),
        },
{
    let w: usize = if encoding.has_two_trailing_nulls() {
        2
    } else {
        1
    };
    let n: usize = bytes.len();
    let description_end: usize = match find_terminator(bytes, w, 0) {
        Some(v) => v,
        None => {
            return Err(FrameParseErrorReason::MissingNullTerminator);
        },
    };
    let description = match decode_text_segment(encoding, &bytes[0..description_end]) {
        Ok(s) => s,
        Err(e) => {
            return Err(FrameParseErrorReason::TextDecodeError(e));
        },
    };
    let text = match decode_text_segments(encoding, &bytes[description_end + w..n]) {
        Ok(v) => v,
        Err(e) => {
            return Err(FrameParseErrorReason::TextDecodeError(e));
        },
    };
    Ok((description, text))
}

/// Reads a comment or lyrics.
pub fn decode_lang_description_text(frame_bytes: &[u8]) -> (r: Result<
    LangDescriptionText,
    FrameParseErrorReason,
>)
    ensures
        match r {
            Ok(v) => lang_text_of(frame_bytes@) == Ok::<FrameContent, ReasonKind>(v@),
            Err(e) => lang_text_of(frame_bytes@) == Err::<FrameContent, ReasonKind>(e.kind()),
        },
{
    if frame_bytes.len() < 5 {
        return Err(FrameParseErrorReason::FrameTooSmall);
    }
    let encoding = match TextEncoding::try_from(frame_bytes[0]) {
        Ok(encoding) => encoding,
        Err(e) => {
            return Err(FrameParseErrorReason::TextDecodeError(e));
        },
    };
    let iso_639_2_lang: [u8; 3] = [frame_bytes[1], frame_bytes[2], frame_bytes[3]];
    assert(iso_639_2_lang@ =~= frame_bytes@.subrange(1, 4));
    match decode_description_text(encoding, &frame_bytes[4..frame_bytes.len()]) {
        Ok((description, text)) => Ok(LangDescriptionText { iso_639_2_lang, description, text }),
        Err(e) => Err(e),
    }
}

/// Reads a user-defined text frame.
pub fn decode_txxx_frame(frame_bytes: &[u8]) -> (r: Result<FrameData, FrameParseErrorReason>)
    ensures
        match r {
            Ok(d) => user_text_of(frame_bytes@) matches Ok(content) && d@ == (FrameDataModel {
                id: ids::TXXX,
                content,
            }),
            Err(e) => user_text_of(frame_bytes@) == Err::<FrameContent, ReasonKind>(e.kind()),
        },
{
    if frame_bytes.len() < 2 {
        return Err(FrameParseErrorReason::FrameTooSmall);
    }
    let encoding = match TextEncoding::try_from(frame_bytes[0]) {
        Ok(encoding) => encoding,
        Err(e) => {
            return Err(FrameParseErrorReason::TextDecodeError(e));
        },
    };
    match decode_description_text(encoding, &frame_bytes[1..frame_bytes.len()]) {
        Ok((description, text)) => Ok(FrameData::TXXX(Txxx { description, text })),
        Err(e) => Err(e),
    }
}

/// Reads a private frame.
pub fn decode_priv_frame(frame_bytes: &[u8]) -> (r: Result<FrameData, FrameParseErrorReason>)
    ensures
        match r {
            Ok(d) => private_of(frame_bytes@) matches Ok(content) && d@ == (FrameDataModel {
                id: ids::PRIV,
                content,
            }),
            Err(e) => private_of(frame_bytes@) == Err::<FrameContent, ReasonKind>(e.kind()),
        },
{
    let n: usize = frame_bytes.len();
    let owner_end: usize = match find_terminator(frame_bytes, 1, 0) {
        Some(v) => v,
        None => {
            return Err(FrameParseErrorReason::MissingNullTerminator);
        },
    };
    let owner = decode_latin1(&frame_bytes[0..owner_end]);
    let data = slice_to_vec(&frame_bytes[owner_end + 1..n]);
    Ok(FrameData::PRIV(Priv { owner, data }))
}

/// Reads a genre frame: a text frame in which codes stand for names.
pub fn decode_genre_frame(frame_bytes: &[u8]) -> (r: Result<FrameData, TextDecodeError>)
    requires
        frame_bytes@.len() > 0,
    ensures
        match r {
            Ok(d) => text_frame(frame_bytes@) matches Ok(texts) && d@ == (FrameDataModel {
                id: ids::TCON,
                content: FrameContent::Text(genre_texts(texts)),
            }),
            Err(e) => text_frame(frame_bytes@) == Err::<Seq<Seq<char>>, TextDecodeError>(e),
        },
{
    match decode_text_frame(frame_bytes) {
        Ok(texts) => Ok(FrameData::TCON(expand_genres(&texts))),
        Err(e) => Err(e),
    }
}

/// Reads a URL frame: ISO-8859-1 without an encoding byte.
pub fn decode_url_frame(frame: &[u8]) -> (r: String)
    requires
        frame@.len() > 0,
    ensures
        r@ == url_of(frame@),
{
    let n: usize = frame.len();
    if frame[n - 1] == 0 {
        let body: &[u8] = &frame[0..n - 1];
        assert(body@ =~= frame@.drop_last());
        decode_latin1(body)
    } else {
        decode_latin1(frame)
    }
}

/// Reads the involved people of a frame: keys and values in turn.
pub fn decode_text_map_frame(frame: &[u8]) -> (r: Result<TextMap, FrameParseErrorReason>)
    requires
        frame@.len() > 0,
    ensures
        match r {
            Ok(map) => map.wf() && people_of(frame@) == Ok::<
                Map<Seq<char>, Seq<char>>,
                ReasonKind,
            >(map@),
            Err(e) => people_of(frame@) == Err::<Map<Seq<char>, Seq<char>>, ReasonKind>(
                e.kind(),
            ),
        },
{
    let encoding = match TextEncoding::try_from(frame[0]) {
        Ok(encoding) => encoding,
        Err(e) => {
            return Err(FrameParseErrorReason::TextDecodeError(e));
        },
    };
    let w: usize = if encoding.has_two_trailing_nulls() {
        2
    } else {
        1
    };
    let payload: &[u8] = &frame[1..frame.len()];
    assert(payload@ =~= frame@.skip(1));
    let limit: usize = payload.len();
    let mut map = TextMap::new();
    let mut start: usize = 0;
    loop
        invariant
            w as int == encoding.width(),
            limit == payload@.len(),
            start <= limit,
            map.wf(),
            frame@.len() > 0,
            people_from(encoding, payload@, start as int, map@) == people_of(frame@),
        decreases limit - start,
    {
        let key_end: usize = match find_terminator(payload, w, start) {
            Some(v) => v,
            None => {
                return Ok(map);
            },
        };
        match find_terminator(payload, w, key_end + w) {
            Some(value_end) => {
                let key = match decode_text_segment(encoding, &payload[start..key_end]) {
                    Ok(s) => s,
                    Err(e) => {
                        return Err(FrameParseErrorReason::TextDecodeError(e));
                    },
                };
                let value = match decode_text_segment(
                    encoding,
                    &payload[key_end + w..value_end],
                ) {
                    Ok(s) => s,
                    Err(e) => {
                        return Err(FrameParseErrorReason::TextDecodeError(e));
                    },
                };
                map.insert(key, value);
                start = value_end + w;
            },
            None => {
                if key_end + w == limit {
                    return Err(FrameParseErrorReason::MissingValueInMapFrame);
                }
                let key = match decode_text_segment(encoding, &payload[start..key_end]) {
                    Ok(s) => s,
                    Err(e) => {
                        return Err(FrameParseErrorReason::TextDecodeError(e));
                    },
                };
                let value = match decode_text_segment(encoding, &payload[key_end + w..limit]) {
                    Ok(s) => s,
                    Err(e) => {
                        return Err(FrameParseErrorReason::TextDecodeError(e));
                    },
                };
                map.insert(key, value);
                return Ok(map);
            },
        }
    }
}

/// True when an executable result is the outcome `expected`.
pub open spec fn is_frame_data(r: Result<FrameData, FrameParseErrorReason>, expected: Result<
    FrameDataModel,
    ReasonKind,
>) -> bool {
    match r {
        Ok(d) => expected == Ok::<FrameDataModel, ReasonKind>(d@),
        Err(e) => expected == Err::<FrameDataModel, ReasonKind>(e.kind()),
    }
}

/// Decodes the body of the frame with the identifier `name`.
pub fn decode_frame(name: [u8; 4], body: &[u8]) -> (r: Result<FrameData, FrameParseErrorReason>)
    requires
        body@.len() > 0,
    ensures
        is_frame_data(r, frame_data_of(be32(name@) as u32, body@)),
        r matches Ok(data) ==> data.wf(),
{
    let id: u32 = read_u32_be(name.as_slice());
    match frame_shape(id) {
        FrameShape::Text => match decode_text_frame(body) {
            Ok(v) => Ok(text_frame_data(id, v)),
            Err(e) => Err(FrameParseErrorReason::TextDecodeError(e)),
        },
        FrameShape::Genre => match decode_genre_frame(body) {
            Ok(d) => Ok(d),
            Err(e) => Err(FrameParseErrorReason::TextDecodeError(e)),
        },
        FrameShape::Numbers => match decode_values_frame::<u64>(body) {
            Ok(v) => Ok(numbers_frame_data(id, v)),
            Err(e) => Err(e),
        },
        FrameShape::Dates => match decode_values_frame::<Date>(body) {
            Ok(v) => Ok(dates_frame_data(id, v)),
            Err(e) => Err(e),
        },
        FrameShape::Tracks => match decode_values_frame::<Track>(body) {
            Ok(v) => Ok(tracks_frame_data(id, v)),
            Err(e) => Err(e),
        },
        FrameShape::Copyrights => match decode_copyrights_frame(body) {
            Ok(v) => Ok(copyrights_frame_data(id, v)),
            Err(e) => Err(e),
        },
        FrameShape::People => match decode_text_map_frame(body) {
            Ok(v) => Ok(people_frame_data(id, v)),
            Err(e) => Err(e),
        },
        FrameShape::Url => Ok(url_frame_data(id, decode_url_frame(body))),
        FrameShape::LangText => match decode_lang_description_text(body) {
            Ok(v) => Ok(lang_text_frame_data(id, v)),
            Err(e) => Err(e),
        },
        FrameShape::UserText => decode_txxx_frame(body),
        FrameShape::Private => decode_priv_frame(body),
        FrameShape::Reverb => match decode_reverb_frame(body) {
            Ok(v) => Ok(FrameData::RVRB(v)),
            Err(e) => Err(e),
        },
        FrameShape::Unknown => Ok(FrameData::Unknown(Unknown { name, data: slice_to_vec(body) })),
    }
}

} // verus!
