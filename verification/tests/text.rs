use id3_decoder::text::{
    decode_latin1, decode_text_frame, decode_text_segment, decode_text_segments, find_terminator,
    TextDecodeError, TextEncoding,
};

fn owned(v: &[&str]) -> Vec<String> {
    v.iter().map(|s| s.to_string()).collect()
}

#[test]
fn encoding_bytes() {
    assert_eq!(TextEncoding::try_from(0), Ok(TextEncoding::ISO8859));
    assert_eq!(TextEncoding::try_from(1), Ok(TextEncoding::UTF16BOM));
    assert_eq!(TextEncoding::try_from(2), Ok(TextEncoding::UTF16BE));
    assert_eq!(TextEncoding::try_from(3), Ok(TextEncoding::UTF8));
    assert_eq!(TextEncoding::try_from(4), Err(TextDecodeError::UnknownEncoding(4)));
    assert_eq!(TextEncoding::try_from(0xff), Err(TextDecodeError::UnknownEncoding(0xff)));
}

#[test]
fn terminator_widths() {
    assert!(!TextEncoding::ISO8859.has_two_trailing_nulls());
    assert!(TextEncoding::UTF16BOM.has_two_trailing_nulls());
    assert!(TextEncoding::UTF16BE.has_two_trailing_nulls());
    assert!(!TextEncoding::UTF8.has_two_trailing_nulls());
    assert_eq!(TextEncoding::ISO8859.get_trailing_null_slice(), &[0u8][..]);
    assert_eq!(TextEncoding::UTF8.get_trailing_null_slice(), &[0u8][..]);
    assert_eq!(TextEncoding::UTF16BOM.get_trailing_null_slice(), &[0u8, 0u8][..]);
    assert_eq!(TextEncoding::UTF16BE.get_trailing_null_slice(), &[0u8, 0u8][..]);
}

#[test]
fn terminators_are_found_on_chunk_boundaries() {
    assert_eq!(find_terminator(b"ab\0cd", 1, 0), Some(2));
    assert_eq!(find_terminator(b"ab\0cd", 1, 3), None);
    assert_eq!(find_terminator(b"", 1, 0), None);
    // Two zero bytes that straddle two chunks are no terminator.
    assert_eq!(find_terminator(&[0x41, 0x00, 0x00, 0x42], 2, 0), None);
    assert_eq!(find_terminator(&[0x41, 0x00, 0x00, 0x00], 2, 0), Some(2));
    // A remainder shorter than a chunk is never looked at.
    assert_eq!(find_terminator(&[0x41, 0x42, 0x00], 2, 0), None);
}

#[test]
fn latin1_maps_each_byte_to_its_code_point() {
    assert_eq!(decode_latin1(b"abc"), "abc");
    assert_eq!(decode_latin1(&[0xe9, 0xff, 0x41]), "\u{e9}\u{ff}A");
    assert_eq!(decode_latin1(&[]), "");
    assert_eq!(
        decode_text_segment(TextEncoding::ISO8859, &[0x43, 0x61, 0x66, 0xe9]),
        Ok("Caf\u{e9}".to_string())
    );
}

#[test]
fn utf8_segments() {
    assert_eq!(decode_text_segment(TextEncoding::UTF8, b"Hi!"), Ok("Hi!".to_string()));
    assert_eq!(
        decode_text_segment(TextEncoding::UTF8, "gr\u{fc}\u{df}e \u{1f3b5}".as_bytes()),
        Ok("gr\u{fc}\u{df}e \u{1f3b5}".to_string())
    );
    assert_eq!(
        decode_text_segment(TextEncoding::UTF8, &[0x48, 0xff]),
        Err(TextDecodeError::InvalidUtf8)
    );
    assert_eq!(
        decode_text_segment(TextEncoding::UTF8, &[0xc3]),
        Err(TextDecodeError::InvalidUtf8)
    );
}

#[test]
fn utf16_with_byte_order_mark() {
    // Little-endian, the mark stripped.
    assert_eq!(
        decode_text_segment(TextEncoding::UTF16BOM, &[0xff, 0xfe, 0x48, 0x00, 0x69, 0x00]),
        Ok("Hi".to_string())
    );
    // Big-endian, the mark stripped.
    assert_eq!(
        decode_text_segment(TextEncoding::UTF16BOM, &[0xfe, 0xff, 0x00, 0x48, 0x00, 0x69]),
        Ok("Hi".to_string())
    );
    // Big-endian with a high byte that is not zero: U+20AC.
    assert_eq!(
        decode_text_segment(TextEncoding::UTF16BOM, &[0xfe, 0xff, 0x20, 0xac]),
        Ok("\u{20ac}".to_string())
    );
    assert_eq!(
        decode_text_segment(TextEncoding::UTF16BOM, &[0xff, 0xfe, 0xac, 0x20]),
        Ok("\u{20ac}".to_string())
    );
    // Only a mark, and nothing at all.
    assert_eq!(decode_text_segment(TextEncoding::UTF16BOM, &[0xff, 0xfe]), Ok(String::new()));
    assert_eq!(decode_text_segment(TextEncoding::UTF16BOM, &[]), Ok(String::new()));
}

#[test]
fn utf16_big_endian_without_mark() {
    assert_eq!(
        decode_text_segment(TextEncoding::UTF16BE, &[0x00, 0x48, 0x00, 0x69]),
        Ok("Hi".to_string())
    );
    assert_eq!(
        decode_text_segment(TextEncoding::UTF16BE, &[0x20, 0xac]),
        Ok("\u{20ac}".to_string())
    );
    // A surrogate pair: U+1F3B5.
    assert_eq!(
        decode_text_segment(TextEncoding::UTF16BE, &[0xd8, 0x3c, 0xdf, 0xb5]),
        Ok("\u{1f3b5}".to_string())
    );
    assert_eq!(decode_text_segment(TextEncoding::UTF16BE, &[]), Ok(String::new()));
}

#[test]
fn utf16_errors() {
    assert_eq!(
        decode_text_segment(TextEncoding::UTF16BE, &[0x00, 0x48, 0x00]),
        Err(TextDecodeError::InvalidUtf16)
    );
    assert_eq!(
        decode_text_segment(TextEncoding::UTF16BOM, &[0xff, 0xfe, 0x48]),
        Err(TextDecodeError::InvalidUtf16)
    );
    // A high surrogate with nothing behind it.
    assert_eq!(
        decode_text_segment(TextEncoding::UTF16BE, &[0xd8, 0x3c]),
        Err(TextDecodeError::InvalidUtf16)
    );
    assert_eq!(
        decode_text_segment(TextEncoding::UTF16BOM, &[0xff, 0xfe, 0x3c, 0xd8]),
        Err(TextDecodeError::InvalidUtf16)
    );
}

#[test]
fn segments_split_at_terminators() {
    assert_eq!(
        decode_text_segments(TextEncoding::ISO8859, b"one\0two\0three"),
        Ok(owned(&["one", "two", "three"]))
    );
    assert_eq!(
        decode_text_segments(TextEncoding::ISO8859, b"one\0two\0"),
        Ok(owned(&["one", "two"]))
    );
    assert_eq!(decode_text_segments(TextEncoding::UTF8, b"a\0\0b"), Ok(owned(&["a", "", "b"])));
    assert_eq!(decode_text_segments(TextEncoding::UTF8, b"\0"), Ok(owned(&[""])));
    assert_eq!(decode_text_segments(TextEncoding::UTF8, b""), Ok(Vec::new()));
    assert_eq!(
        decode_text_segments(
            TextEncoding::UTF16BE,
            &[0x00, 0x41, 0x00, 0x00, 0x00, 0x42, 0x00, 0x00]
        ),
        Ok(owned(&["A", "B"]))
    );
    // The first segment that cannot be decoded fails the whole.
    assert_eq!(
        decode_text_segments(TextEncoding::UTF8, &[0x41, 0x00, 0xff, 0x00, 0x42]),
        Err(TextDecodeError::InvalidUtf8)
    );
}

#[test]
fn text_frames() {
    assert_eq!(decode_text_frame(&[0x03, 0x48, 0x69, 0x21, 0x00]), Ok(owned(&["Hi!"])));
    assert_eq!(decode_text_frame(&[0x00, 0x48, 0x69]), Ok(owned(&["Hi"])));
    assert_eq!(decode_text_frame(&[0x00, 0x61, 0x00, 0x62]), Ok(owned(&["a", "b"])));
    assert_eq!(
        decode_text_frame(&[0x01, 0xff, 0xfe, 0x41, 0x00, 0x00, 0x00, 0xff, 0xfe, 0x42, 0x00]),
        Ok(owned(&["A", "B"]))
    );
    assert_eq!(decode_text_frame(&[0x07, 0x48]), Err(TextDecodeError::UnknownEncoding(7)));
}

#[test]
fn text_frame_with_empty_payload_is_the_empty_string() {
    assert_eq!(decode_text_frame(&[0x00]), Ok(owned(&[""])));
    assert_eq!(decode_text_frame(&[0x01]), Ok(owned(&[""])));
    assert_eq!(decode_text_frame(&[0x03]), Ok(owned(&[""])));
}

fn terminators(payload: &[u8], width: usize) -> usize {
    payload.chunks_exact(width).filter(|c| c.iter().all(|b| *b == 0)).count()
}

fn ends_with_terminator(payload: &[u8], width: usize) -> bool {
    payload.len() >= width
        && payload.len() % width == 0
        && payload[payload.len() - width..].iter().all(|b| *b == 0)
}

#[test]
fn segment_count_is_terminators_plus_open_tail() {
    let narrow: [&[u8]; 7] = [b"", b"a", b"a\0", b"a\0b", b"\0", b"\0\0", b"a\0\0b\0c"];
    for payload in narrow.iter() {
        let mut frame = vec![0x03u8];
        frame.extend_from_slice(payload);
        let got = decode_text_frame(&frame).unwrap().len();
        let open = if ends_with_terminator(payload, 1) { 0 } else { 1 };
        assert_eq!(got, terminators(payload, 1) + open);
    }
    let wide: [&[u8]; 5] = [
        &[],
        &[0x00, 0x41],
        &[0x00, 0x41, 0x00, 0x00],
        &[0x00, 0x41, 0x00, 0x00, 0x00, 0x42],
        &[0x00, 0x00, 0x00, 0x00],
    ];
    for payload in wide.iter() {
        let mut frame = vec![0x02u8];
        frame.extend_from_slice(payload);
        let got = decode_text_frame(&frame).unwrap().len();
        let open = if ends_with_terminator(payload, 2) { 0 } else { 1 };
        assert_eq!(got, terminators(payload, 2) + open);
    }
}

#[test]
fn single_segment_round_trips() {
    let text = "Stra\u{df}e \u{2013} caf\u{e9}";
    assert_eq!(decode_text_segment(TextEncoding::UTF8, text.as_bytes()), Ok(text.to_string()));
    let latin: Vec<u8> = "caf\u{e9}".chars().map(|c| c as u32 as u8).collect();
    assert_eq!(decode_text_segment(TextEncoding::ISO8859, &latin), Ok("caf\u{e9}".to_string()));
    let mut marked = vec![0xffu8, 0xfe];
    for unit in text.encode_utf16() {
        marked.push((unit & 0xff) as u8);
        marked.push((unit >> 8) as u8);
    }
    assert_eq!(decode_text_segment(TextEncoding::UTF16BOM, &marked), Ok(text.to_string()));
}
