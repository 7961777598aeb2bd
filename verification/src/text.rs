//! The text engine: the four encodings, terminators, and the split of a payload into
//! segments.

use vstd::prelude::*;
use vstd::std_specs::convert::TryFromSpecImpl;
use vstd::utf8::{decode_utf8, encode_utf8, valid_utf8};
use crate::outside::utf16_decoding;

verus! {

broadcast use vstd::utf8::group_utf8_lib;

/// Why a run of bytes could not be read as text.
#[derive(Copy, Clone, Debug, PartialEq, Eq, Structural)]
pub enum TextDecodeError {
    InvalidUtf16,
    InvalidUtf8,
    UnknownEncoding(u8),
}

/// The encoding that the first byte of a text-bearing frame names.
#[derive(Copy, Clone, Debug, PartialEq, Eq, Structural)]
pub enum TextEncoding {
    ISO8859,
    UTF16BOM,
    UTF16BE,
    UTF8,
}

/// The encoding that the byte `v` names.
pub open spec fn encoding_of(v: u8) -> Result<TextEncoding, TextDecodeError> {
    if v == 0 {
        Ok(TextEncoding::ISO8859)
    } else if v == 1 {
        Ok(TextEncoding::UTF16BOM)
    } else if v == 2 {
        Ok(TextEncoding::UTF16BE)
    } else if v == 3 {
        Ok(TextEncoding::UTF8)
    } else {
        Err(TextDecodeError::UnknownEncoding(v))
    }
}

impl TryFrom<u8> for TextEncoding {
    type Error = TextDecodeError;

    fn try_from(v: u8) -> (r: Result<TextEncoding, TextDecodeError>) {
        match v {
            0 => Ok(TextEncoding::ISO8859),
            1 => Ok(TextEncoding::UTF16BOM),
            2 => Ok(TextEncoding::UTF16BE),
            3 => Ok(TextEncoding::UTF8),
            _ => Err(TextDecodeError::UnknownEncoding(v)),
        }
    }
}

impl TryFromSpecImpl<u8> for TextEncoding {
    open spec fn obeys_try_from_spec() -> bool {
        true
    }

    open spec fn try_from_spec(v: u8) -> Result<TextEncoding, TextDecodeError> {
        encoding_of(v)
    }
}

impl TextEncoding {
    /// True for the two UTF-16 encodings, whose terminator is two zero bytes.
    pub open spec fn wide(self) -> bool {
        self == TextEncoding::UTF16BOM || self == TextEncoding::UTF16BE
    }

    /// The number of bytes in this encoding's terminator.
    pub open spec fn width(self) -> int {
        if self.wide() {
            2
        } else {
            1
        }
    }

    pub fn has_two_trailing_nulls(self) -> (r: bool)
        ensures
            r == self.wide(),
    {
        match self {
            TextEncoding::UTF16BOM => true,
            TextEncoding::UTF16BE => true,
            _ => false,
        }
    }

    pub fn get_trailing_null_slice(self) -> (r: &'static [u8])
        ensures
            r@.len() == self.width(),
            forall|i: int| 0 <= i < r@.len() ==> r@[i] == 0,
    {
        if self.has_two_trailing_nulls() {
            let two: &'static [u8; 2] = &[0u8, 0u8];
            two.as_slice()
        } else {
            let one: &'static [u8; 1] = &[0u8];
            one.as_slice()
        }
    }
}

/// True when a whole chunk of `w` zero bytes lies at offset `p` of `bytes`.
pub open spec fn zero_chunk_at(bytes: Seq<u8>, w: int, p: int) -> bool {
    &&& 0 <= p
    &&& p + w <= bytes.len()
    &&& bytes[p] == 0
    &&& (w == 2 ==> bytes[p + 1] == 0)
}

/// The offset of the first terminator met when `bytes` is walked from `from` in
/// chunks of `w` bytes; a remainder shorter than `w` is never looked at.
pub open spec fn first_terminator(bytes: Seq<u8>, w: int, from: int) -> Option<int>
    decreases bytes.len() - from,
    when w > 0 && from >= 0
{
    if from + w > bytes.len() {
        None
    } else if zero_chunk_at(bytes, w, from) {
        Some(from)
    } else {
        first_terminator(bytes, w, from + w)
    }
}

/// The segments of `bytes` from offset `start` on: each runs up to the next
/// terminator, and bytes left after the last terminator form a final segment.
pub open spec fn segments_from(bytes: Seq<u8>, w: int, start: int) -> Seq<Seq<u8>>
    decreases bytes.len() - start,
    when w > 0 && start >= 0
{
    match first_terminator(bytes, w, start) {
        Some(p) => if start <= p && p + w <= bytes.len() {
            seq![bytes.subrange(start, p)] + segments_from(bytes, w, p + w)
        } else {
            seq![]
        },
        None => if start >= bytes.len() {
            seq![]
        } else {
            seq![bytes.subrange(start, bytes.len() as int)]
        },
    }
}

/// The segments of a whole payload.
pub open spec fn segments(bytes: Seq<u8>, w: int) -> Seq<Seq<u8>> {
    segments_from(bytes, w, 0)
}

/// ISO-8859-1: each byte is the code point of equal value.
pub open spec fn latin1(bytes: Seq<u8>) -> Seq<char> {
    Seq::new(bytes.len(), |i: int| bytes[i] as char)
}

/// The code units of `bytes` read in pairs, the high byte first.
pub open spec fn units_be(bytes: Seq<u8>) -> Seq<u16> {
    Seq::new(bytes.len() / 2, |i: int| (bytes[2 * i] * 0x100 + bytes[2 * i + 1]) as u16)
}

/// The code units of `bytes` read in pairs, the low byte first.
pub open spec fn units_le(bytes: Seq<u8>) -> Seq<u16> {
    Seq::new(bytes.len() / 2, |i: int| (bytes[2 * i + 1] * 0x100 + bytes[2 * i]) as u16)
}

/// True when `bytes` opens with the byte order mark of big-endian UTF-16.
pub open spec fn starts_big_endian(bytes: Seq<u8>) -> bool {
    bytes.len() >= 2 && bytes[0] == 0xfe && bytes[1] == 0xff
}

/// The code units of a segment in UTF-16 with a byte order mark, the first unit, which
/// is the mark, left out. `FE FF` announces big-endian units; with anything else in
/// its place the units are read as little-endian.
pub open spec fn units_after_mark(bytes: Seq<u8>) -> Seq<u16> {
    if bytes.len() < 2 {
        Seq::empty()
    } else if starts_big_endian(bytes) {
        units_be(bytes).drop_first()
    } else {
        units_le(bytes).drop_first()
    }
}

/// The text that UTF-16 code units stand for.
pub open spec fn utf16_text(units: Seq<u16>) -> Result<Seq<char>, TextDecodeError> {
    match utf16_decoding(units) {
        Some(text) => Ok(text),
        None => Err(TextDecodeError::InvalidUtf16),
    }
}

/// The text of one segment.
pub open spec fn segment_text(encoding: TextEncoding, bytes: Seq<u8>) -> Result<
    Seq<char>,
    TextDecodeError,
> {
    match encoding {
        TextEncoding::ISO8859 => Ok(latin1(bytes)),
        TextEncoding::UTF16BOM => if bytes.len() % 2 != 0 {
            Err(TextDecodeError::InvalidUtf16)
        } else {
            utf16_text(units_after_mark(bytes))
        },
        TextEncoding::UTF16BE => if bytes.len() % 2 != 0 {
            Err(TextDecodeError::InvalidUtf16)
        } else {
            utf16_text(units_be(bytes))
        },
        TextEncoding::UTF8 => if valid_utf8(bytes) {
            Ok(decode_utf8(bytes))
        } else {
            Err(TextDecodeError::InvalidUtf8)
        },
    }
}

/// `text` in front of what `rest` holds, or the error of `rest`.
pub open spec fn prepend(text: Seq<Seq<char>>, rest: Result<Seq<Seq<char>>, TextDecodeError>)
    -> Result<Seq<Seq<char>>, TextDecodeError> {
    match rest {
        Ok(tail) => Ok(text + tail),
        Err(e) => Err(e),
    }
}

/// The texts of all of `parts` in order, or the error of the first that has none.
pub open spec fn texts_of(encoding: TextEncoding, parts: Seq<Seq<u8>>) -> Result<
    Seq<Seq<char>>,
    TextDecodeError,
>
    decreases parts.len(),
{
    if parts.len() == 0 {
        Ok(Seq::empty())
    } else {
        match segment_text(encoding, parts[0]) {
            Ok(text) => prepend(seq![text], texts_of(encoding, parts.drop_first())),
            Err(e) => Err(e),
        }
    }
}

/// The texts of the segments of `bytes`.
pub open spec fn segments_text(encoding: TextEncoding, bytes: Seq<u8>) -> Result<
    Seq<Seq<char>>,
    TextDecodeError,
> {
    texts_of(encoding, segments(bytes, encoding.width()))
}

/// What a text frame holds. The body is the encoding byte and the payload; an empty
/// payload is the one empty string.
pub open spec fn text_frame(frame: Seq<u8>) -> Result<Seq<Seq<char>>, TextDecodeError>
    recommends
        frame.len() > 0,
{
    match encoding_of(frame[0]) {
        Err(e) => Err(e),
        Ok(encoding) => if frame.len() == 1 {
            Ok(seq![Seq::<char>::empty()])
        } else {
            segments_text(encoding, frame.skip(1))
        },
    }
}

/// True when an executable result is the outcome `expected`.
pub open spec fn is_text(r: Result<String, TextDecodeError>, expected: Result<
    Seq<char>,
    TextDecodeError,
>) -> bool {
    match r {
        Ok(s) => expected == Ok::<Seq<char>, TextDecodeError>(s@),
        Err(e) => expected == Err::<Seq<char>, TextDecodeError>(e),
    }
}

/// True when an executable result is the outcome `expected`.
pub open spec fn is_texts(r: Result<Vec<String>, TextDecodeError>, expected: Result<
    Seq<Seq<char>>,
    TextDecodeError,
>) -> bool {
    match r {
        Ok(v) => expected == Ok::<Seq<Seq<char>>, TextDecodeError>(v.deep_view()),
        Err(e) => expected == Err::<Seq<Seq<char>>, TextDecodeError>(e),
    }
}

/// The number of terminators met when `bytes` is walked from `from` in chunks of `w`
/// bytes.
pub open spec fn terminator_count(bytes: Seq<u8>, w: int, from: int) -> nat
    decreases bytes.len() - from,
    when w > 0 && from >= 0
{
    if from + w > bytes.len() {
        0
    } else if zero_chunk_at(bytes, w, from) {
        1 + terminator_count(bytes, w, from + w)
    } else {
        terminator_count(bytes, w, from + w)
    }
}

/// True when `x` is a whole number of chunks of `w` bytes, for `w` one or two.
pub open spec fn aligned(x: int, w: int) -> bool {
    w == 2 ==> x % 2 == 0
}

/// True when the last chunk of `bytes` is a terminator.
pub open spec fn ends_with_terminator(bytes: Seq<u8>, w: int) -> bool {
    bytes.len() >= w && aligned(bytes.len() as int, w) && zero_chunk_at(bytes, w, bytes.len() - w)
}

/// What the first terminator at or after `start` says of the chunks before it and of
/// the count of terminators.
pub proof fn lemma_first_terminator(bytes: Seq<u8>, w: int, start: int)
    requires
        w == 1 || w == 2,
        0 <= start <= bytes.len(),
    ensures
        match first_terminator(bytes, w, start) {
            Some(p) => start <= p && p + w <= bytes.len() && aligned(p - start, w)
                && zero_chunk_at(bytes, w, p) && terminator_count(bytes, w, start) == 1
                + terminator_count(bytes, w, p + w),
            None => terminator_count(bytes, w, start) == 0 && forall|q: int|
                start <= q && q + w <= bytes.len() && aligned(q - start, w) ==> !zero_chunk_at(
                    bytes,
                    w,
                    q,
                ),
        },
    decreases bytes.len() - start,
{
    if start + w <= bytes.len() && !zero_chunk_at(bytes, w, start) {
        lemma_first_terminator(bytes, w, start + w);
        if first_terminator(bytes, w, start) is None {
            assert forall|q: int|
                start <= q && q + w <= bytes.len() && aligned(q - start, w) implies !zero_chunk_at(
                bytes,
                w,
                q,
            ) by {
                if q != start {
                    assert(start + w <= q && aligned(q - (start + w), w));
                }
            }
        }
    }
}

/// A payload has as many segments as it has terminators, and one more where bytes
/// are left behind the last terminator.
pub proof fn lemma_segment_count_from(bytes: Seq<u8>, w: int, start: int)
    requires
        w == 1 || w == 2,
        0 <= start <= bytes.len(),
        aligned(start, w),
    ensures
        segments_from(bytes, w, start).len() == terminator_count(bytes, w, start) + (if start
            < bytes.len() && !ends_with_terminator(bytes, w) {
            1nat
        } else {
            0nat
        }),
    decreases bytes.len() - start,
{
    lemma_first_terminator(bytes, w, start);
    match first_terminator(bytes, w, start) {
        Some(p) => {
            lemma_segment_count_from(bytes, w, p + w);
        },
        None => {
            if start < bytes.len() && ends_with_terminator(bytes, w) {
                let q = bytes.len() - w;
                assert(start <= q && aligned(q - start, w));
            }
        },
    }
}

/// The count of segments of a whole payload: its terminators, and one more unless
/// the payload is empty or ends with a terminator.
pub proof fn lemma_segment_count(bytes: Seq<u8>, w: int)
    requires
        w == 1 || w == 2,
    ensures
        segments(bytes, w).len() == terminator_count(bytes, w, 0) + (if bytes.len() > 0
            && !ends_with_terminator(bytes, w) {
            1nat
        } else {
            0nat
        }),
{
    lemma_segment_count_from(bytes, w, 0);
}

/// Where every segment can be decoded, there are as many texts as segments.
pub proof fn lemma_texts_len(encoding: TextEncoding, parts: Seq<Seq<u8>>)
    ensures
        texts_of(encoding, parts) matches Ok(texts) ==> texts.len() == parts.len(),
    decreases parts.len(),
{
    if parts.len() > 0 {
        lemma_texts_len(encoding, parts.drop_first());
    }
}

/// A text frame that can be decoded gives as many strings as its payload has
/// terminators, and one more if the payload does not end with a terminator.
pub proof fn lemma_text_frame_count(frame: Seq<u8>)
    requires
        frame.len() > 0,
        text_frame(frame) is Ok,
    ensures
        encoding_of(frame[0]) matches Ok(encoding) && text_frame(frame)->Ok_0.len()
            == terminator_count(frame.skip(1), encoding.width(), 0) + (if ends_with_terminator(
            frame.skip(1),
            encoding.width(),
        ) {
            0nat
        } else {
            1nat
        }),
{
    let encoding = encoding_of(frame[0])->Ok_0;
    let payload = frame.skip(1);
    lemma_segment_count(payload, encoding.width());
    lemma_texts_len(encoding, segments(payload, encoding.width()));
}

/// Text that is written as UTF-8 is read back as it was.
pub proof fn lemma_utf8_round_trip(text: Seq<char>)
    ensures
        segment_text(TextEncoding::UTF8, encode_utf8(text)) == Ok::<Seq<char>, TextDecodeError>(
            text,
        ),
{
    vstd::utf8::encode_utf8_valid_utf8(text);
    vstd::utf8::encode_utf8_decode_utf8(text);
}

/// A character up to 255 is the character of the byte of equal value.
pub proof fn lemma_latin1_char(c: char)
    requires
        c as u32 <= 0xff,
    ensures
        (c as u8) as char == c,
{
}

/// Text of code points up to 255, written one byte for each, is read back as it
/// was.
pub proof fn lemma_latin1_round_trip(text: Seq<char>)
    requires
        forall|i: int| 0 <= i < text.len() ==> (#[trigger] text[i]) as u32 <= 0xff,
    ensures
        segment_text(TextEncoding::ISO8859, Seq::new(text.len(), |i: int| text[i] as u8)) == Ok::<
            Seq<char>,
            TextDecodeError,
        >(text),
{
    let bytes = Seq::new(text.len(), |i: int| text[i] as u8);
    assert forall|i: int| 0 <= i < text.len() implies (#[trigger] bytes[i]) as char == text[i] by {
        lemma_latin1_char(text[i]);
    }
    assert(latin1(bytes) =~= text);
}

/// A byte order mark in front of UTF-16 text is stripped: what is read is the text
/// behind it, in the byte order that the mark announces.
pub proof fn lemma_byte_order_mark_is_stripped(payload: Seq<u8>)
    requires
        payload.len() % 2 == 0,
    ensures
        segment_text(TextEncoding::UTF16BOM, seq![0xfeu8, 0xffu8] + payload) == utf16_text(
            units_be(payload),
        ),
        segment_text(TextEncoding::UTF16BOM, seq![0xffu8, 0xfeu8] + payload) == utf16_text(
            units_le(payload),
        ),
{
    let big = seq![0xfeu8, 0xffu8] + payload;
    let little = seq![0xffu8, 0xfeu8] + payload;
    assert(units_be(big).drop_first() =~= units_be(payload)) by {
        assert forall|i: int| 0 <= i < payload.len() / 2 implies units_be(big).drop_first()[i]
            == units_be(payload)[i] by {
            assert(big[2 * (i + 1)] == payload[2 * i]);
            assert(big[2 * (i + 1) + 1] == payload[2 * i + 1]);
        }
    }
    assert(units_le(little).drop_first() =~= units_le(payload)) by {
        assert forall|i: int| 0 <= i < payload.len() / 2 implies units_le(little).drop_first()[i]
            == units_le(payload)[i] by {
            assert(little[2 * (i + 1)] == payload[2 * i]);
            assert(little[2 * (i + 1) + 1] == payload[2 * i + 1]);
        }
    }
}

/// One step of reading segments in order: the first of `parts` is decoded and put
/// behind what was read before it.
pub proof fn lemma_texts_step(
    encoding: TextEncoding,
    parts: Seq<Seq<u8>>,
    part: Seq<u8>,
    tail: Seq<Seq<u8>>,
    before: Seq<Seq<char>>,
)
    requires
        parts =~= seq![part] + tail,
    ensures
        match segment_text(encoding, part) {
            Ok(text) => prepend(before, texts_of(encoding, parts)) == prepend(
                before.push(text),
                texts_of(encoding, tail),
            ),
            Err(e) => prepend(before, texts_of(encoding, parts)) == Err::<
                Seq<Seq<char>>,
                TextDecodeError,
            >(e),
        },
{
    assert(parts[0] == part);
    assert(parts.drop_first() =~= tail);
    match segment_text(encoding, part) {
        Ok(text) => {
            match texts_of(encoding, tail) {
                Ok(t) => {
                    assert(before + (seq![text] + t) =~= before.push(text) + t);
                },
                Err(_) => {},
            }
        },
        Err(_) => {},
    }
}

/// Nothing is left to read: what was read before is the whole result.
pub proof fn lemma_texts_done(encoding: TextEncoding, before: Seq<Seq<char>>)
    ensures
        prepend(before, texts_of(encoding, Seq::<Seq<u8>>::empty())) == Ok::<
            Seq<Seq<char>>,
            TextDecodeError,
        >(before),
{
    assert(before + Seq::<Seq<char>>::empty() =~= before);
}

/// Finds the first terminator of `w` bytes at or after `from`, walking in chunks.
pub fn find_terminator(bytes: &[u8], w: usize, from: usize) -> (r: Option<usize>)
    requires
        w == 1 || w == 2,
        from <= bytes@.len(),
    ensures
        match r {
            Some(p) => first_terminator(bytes@, w as int, from as int) == Some(p as int)
                && from <= p && p + w <= bytes@.len(),
            None => first_terminator(bytes@, w as int, from as int) is None,
        },
{
    let mut pos: usize = from;
    while w <= bytes.len() - pos
        invariant
            w == 1 || w == 2,
            from <= pos <= bytes@.len(),
            first_terminator(bytes@, w as int, pos as int) == first_terminator(
                bytes@,
                w as int,
                from as int,
            ),
        decreases bytes@.len() - pos,
    {
        let zero: bool = bytes[pos] == 0 && (w == 1 || bytes[pos + 1] == 0);
        if zero {
            return Some(pos);
        }
        pos = pos + w;
    }
    None
}

/// Decodes ISO-8859-1.
pub fn decode_latin1(bytes: &[u8]) -> (r: String)
    ensures
        r@ == latin1(bytes@),
{
    let mut text = String::new();
    let mut i: usize = 0;
    while i < bytes.len()
        invariant
            i <= bytes@.len(),
            text@ == latin1(bytes@.take(i as int)),
        decreases bytes@.len() - i,
    {
        let b: u8 = bytes[i];
        text.push(b as char);
        i = i + 1;
        assert(text@ =~= latin1(bytes@.take(i as int)));
    }
    assert(bytes@.take(i as int) =~= bytes@);
    text
}

/// Collects the code units of `bytes` from byte offset `skip` on, taking the high
/// byte of each pair first when `big_endian` holds.
fn collect_units(bytes: &[u8], skip: usize, big_endian: bool) -> (r: Vec<u16>)
    requires
        bytes@.len() % 2 == 0,
        skip % 2 == 0,
        skip <= bytes@.len(),
    ensures
        r@ == (if big_endian {
            units_be(bytes@)
        } else {
            units_le(bytes@)
        }).skip(skip as int / 2),
{
    let ghost all = if big_endian {
        units_be(bytes@)
    } else {
        units_le(bytes@)
    };
    let mut units: Vec<u16> = Vec::new();
    let mut i: usize = skip;
    while i < bytes.len()
        invariant
            bytes@.len() % 2 == 0,
            skip % 2 == 0,
            i % 2 == 0,
            skip <= i <= bytes@.len(),
            all == (if big_endian {
                units_be(bytes@)
            } else {
                units_le(bytes@)
            }),
            units@ == all.subrange(skip as int / 2, i as int / 2),
        decreases bytes@.len() - i,
    {
        let first: u16 = bytes[i] as u16;
        let second: u16 = bytes[i + 1] as u16;
        let unit: u16 = if big_endian {
            first * 0x100 + second
        } else {
            second * 0x100 + first
        };
        units.push(unit);
        i = i + 2;
        assert(units@ =~= all.subrange(skip as int / 2, i as int / 2));
    }
    assert(units@ =~= all.skip(skip as int / 2));
    units
}

/// Turns what `String::from_utf16` gave into this crate's result.
pub fn utf16_result(decoded: Result<String, std::string::FromUtf16Error>) -> (r: Result<
    String,
    TextDecodeError,
>)
    ensures
        match decoded {
            Ok(s) => r == Ok::<String, TextDecodeError>(s),
            Err(_) => r == Err::<String, TextDecodeError>(TextDecodeError::InvalidUtf16),
        },
{
    match decoded {
        Ok(s) => Ok(s),
        Err(_) => Err(TextDecodeError::InvalidUtf16),
    }
}

/// Decodes one segment.
pub fn decode_text_segment(encoding: TextEncoding, text_slice: &[u8]) -> (r: Result<
    String,
    TextDecodeError,
>)
    ensures
        is_text(r, segment_text(encoding, text_slice@)),
{
    match encoding {
        TextEncoding::ISO8859 => Ok(decode_latin1(text_slice)),
        TextEncoding::UTF16BOM => {
            if text_slice.len() % 2 != 0 {
                return Err(TextDecodeError::InvalidUtf16);
            }
            if text_slice.len() == 0 {
                let units: Vec<u16> = Vec::new();
                assert(units@ =~= units_after_mark(text_slice@));
                return utf16_result(String::from_utf16(units.as_slice()));
            }
            let big_endian: bool = text_slice[0] == 0xfe && text_slice[1] == 0xff;
            let units = collect_units(text_slice, 2, big_endian);
            assert(units@ =~= units_after_mark(text_slice@));
            utf16_result(String::from_utf16(units.as_slice()))
        },
        TextEncoding::UTF16BE => {
            if text_slice.len() % 2 != 0 {
                return Err(TextDecodeError::InvalidUtf16);
            }
            let units = collect_units(text_slice, 0, true);
            assert(units@ =~= units_be(text_slice@));
            utf16_result(String::from_utf16(units.as_slice()))
        },
        TextEncoding::UTF8 => match std::str::from_utf8(text_slice) {
            Ok(s) => {
                assert(decode_utf8(encode_utf8(s@)) == s@);
                Ok(s.to_owned())
            },
            Err(_) => Err(TextDecodeError::InvalidUtf8),
        },
    }
}

/// Splits `text_slice` at the terminators of `encoding` and decodes each segment.
pub fn decode_text_segments(encoding: TextEncoding, text_slice: &[u8]) -> (r: Result<
    Vec<String>,
    TextDecodeError,
>)
    ensures
        is_texts(r, segments_text(encoding, text_slice@)),
{
    let w: usize = if encoding.has_two_trailing_nulls() {
        2
    } else {
        1
    };
    let ghost whole = segments_text(encoding, text_slice@);
    let limit: usize = text_slice.len();
    let mut text_segments: Vec<String> = Vec::new();
    let mut start: usize = 0;
    loop
        invariant
            w as int == encoding.width(),
            limit == text_slice@.len(),
            start <= text_slice@.len(),
            whole == segments_text(encoding, text_slice@),
            whole == prepend(
                text_segments.deep_view(),
                texts_of(encoding, segments_from(text_slice@, w as int, start as int)),
            ),
        decreases text_slice@.len() - start,
    {
        let ghost before = text_segments.deep_view();
        let ghost rest = segments_from(text_slice@, w as int, start as int);
        let found = find_terminator(text_slice, w, start);
        match found {
            Some(pos) => {
                let part: &[u8] = &text_slice[start..pos];
                proof {
                    let tail = segments_from(text_slice@, w as int, pos + w);
                    assert(rest == seq![part@] + tail);
                    lemma_texts_step(encoding, rest, part@, tail, before);
                }
                match decode_text_segment(encoding, part) {
                    Ok(text) => {
                        text_segments.push(text);
                        assert(text_segments.deep_view() =~= before.push(text@));
                    },
                    Err(e) => {
                        return Err(e);
                    },
                }
                start = pos + w;
            },
            None => {
                if start < limit {
                    let part: &[u8] = &text_slice[start..limit];
                    proof {
                        let tail = Seq::<Seq<u8>>::empty();
                        assert(rest =~= seq![part@] + tail);
                        lemma_texts_step(encoding, rest, part@, tail, before);
                    }
                    match decode_text_segment(encoding, part) {
                        Ok(text) => {
                            text_segments.push(text);
                            assert(text_segments.deep_view() =~= before.push(text@));
                            proof {
                                lemma_texts_done(encoding, before.push(text@));
                            }
                        },
                        Err(e) => {
                            return Err(e);
                        },
                    }
                } else {
                    proof {
                        assert(rest =~= Seq::<Seq<u8>>::empty());
                        lemma_texts_done(encoding, before);
                    }
                }
                return Ok(text_segments);
            },
        }
    }
}

/// Decodes a text frame: the encoding byte, then the payload. An empty payload is the
/// one empty string.
pub fn decode_text_frame(frame: &[u8]) -> (r: Result<Vec<String>, TextDecodeError>)
    requires
        frame@.len() > 0,
    ensures
        is_texts(r, text_frame(frame@)),
{
    let encoding = match TextEncoding::try_from(frame[0]) {
        Ok(encoding) => encoding,
        Err(e) => {
            return Err(e);
        },
    };
    if frame.len() == 1 {
        let mut single: Vec<String> = Vec::new();
        single.push(String::new());
        assert(single.deep_view() =~= seq![Seq::<char>::empty()]);
        return Ok(single);
    }
    let payload: &[u8] = &frame[1..frame.len()];
    assert(payload@ =~= frame@.skip(1));
    decode_text_segments(encoding, payload)
}

} // verus!
