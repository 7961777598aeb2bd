use id3_decoder::decoders::{
    decode_description_text, decode_frame, decode_genre_frame, decode_lang_description_text,
    decode_priv_frame, decode_text_map_frame, decode_txxx_frame, decode_url_frame, map_parse,
};
use id3_decoder::errors::{FrameParseErrorReason, ParseDateError, ParseTrackError};
use id3_decoder::frames::FrameData;
use id3_decoder::genres::{expand_genre, genre_title_of};
use id3_decoder::text::{TextDecodeError, TextEncoding};
use id3_decoder::values::{Date, Track};

fn texts(v: &[&str]) -> Vec<String> {
    v.iter().map(|s| s.to_string()).collect()
}

#[test]
fn genre_code_mapping() {
    match decode_genre_frame(&[0x00, 0x31, 0x37, 0x00]) {
        Ok(FrameData::TCON(genres)) => assert_eq!(genres, texts(&["Rock"])),
        other => panic!("unexpected: {:?}", other),
    }
}

#[test]
fn genre_codes_and_other_text() {
    assert_eq!(expand_genre("0"), "Blues");
    assert_eq!(expand_genre("1"), "Classic Rock");
    assert_eq!(expand_genre("9"), "Metal");
    assert_eq!(expand_genre("10"), "New Age");
    assert_eq!(expand_genre("14"), "R&B");
    assert_eq!(expand_genre("32"), "Classical");
    assert_eq!(expand_genre("78"), "Rock & Roll");
    assert_eq!(expand_genre("79"), "Hard Rock");
    assert_eq!(expand_genre("RX"), "Remix");
    assert_eq!(expand_genre("CR"), "Cover");
    // Anything else stays as it is.
    assert_eq!(expand_genre("80"), "80");
    assert_eq!(expand_genre("07"), "07");
    assert_eq!(expand_genre("017"), "017");
    assert_eq!(expand_genre(""), "");
    assert_eq!(expand_genre("rx"), "rx");
    assert_eq!(expand_genre("Post-Rock"), "Post-Rock");
    assert_eq!(expand_genre("\u{661}\u{667}"), "\u{661}\u{667}");
}

#[test]
fn genre_table_ends() {
    assert_eq!(genre_title_of(0), "Blues");
    assert_eq!(genre_title_of(17), "Rock");
    assert_eq!(genre_title_of(40), "AlternRock");
    assert_eq!(genre_title_of(79), "Hard Rock");
    assert_eq!(genre_title_of(80), "Remix");
    assert_eq!(genre_title_of(81), "Cover");
}

#[test]
fn genre_frame_maps_each_segment() {
    match decode_genre_frame(b"\x0317\0Shoegaze\0CR") {
        Ok(FrameData::TCON(genres)) => assert_eq!(genres, texts(&["Rock", "Shoegaze", "Cover"])),
        other => panic!("unexpected: {:?}", other),
    }
    assert!(matches!(decode_genre_frame(&[0x09, 0x31]), Err(TextDecodeError::UnknownEncoding(9))));
}

#[test]
fn title_frame() {
    match decode_frame(*b"TIT2", &[0x03, 0x48, 0x69, 0x21, 0x00]) {
        Ok(FrameData::TIT2(v)) => assert_eq!(v, texts(&["Hi!"])),
        other => panic!("unexpected: {:?}", other),
    }
}

#[test]
fn each_text_identifier_gives_its_own_variant() {
    let body = [0x00, 0x78];
    assert!(matches!(decode_frame(*b"TALB", &body), Ok(FrameData::TALB(_))));
    assert!(matches!(decode_frame(*b"TCOM", &body), Ok(FrameData::TCOM(_))));
    assert!(matches!(decode_frame(*b"TENC", &body), Ok(FrameData::TENC(_))));
    assert!(matches!(decode_frame(*b"TEXT", &body), Ok(FrameData::TEXT(_))));
    assert!(matches!(decode_frame(*b"TIT1", &body), Ok(FrameData::TIT1(_))));
    assert!(matches!(decode_frame(*b"TIT2", &body), Ok(FrameData::TIT2(_))));
    assert!(matches!(decode_frame(*b"TIT3", &body), Ok(FrameData::TIT3(_))));
    assert!(matches!(decode_frame(*b"TMOO", &body), Ok(FrameData::TMOO(_))));
    assert!(matches!(decode_frame(*b"TOAL", &body), Ok(FrameData::TOAL(_))));
    assert!(matches!(decode_frame(*b"TOFN", &body), Ok(FrameData::TOFN(_))));
    assert!(matches!(decode_frame(*b"TOLY", &body), Ok(FrameData::TOLY(_))));
    assert!(matches!(decode_frame(*b"TOPE", &body), Ok(FrameData::TOPE(_))));
    assert!(matches!(decode_frame(*b"TOWN", &body), Ok(FrameData::TOWN(_))));
    assert!(matches!(decode_frame(*b"TPE1", &body), Ok(FrameData::TPE1(_))));
    assert!(matches!(decode_frame(*b"TPE2", &body), Ok(FrameData::TPE2(_))));
    assert!(matches!(decode_frame(*b"TPE3", &body), Ok(FrameData::TPE3(_))));
    assert!(matches!(decode_frame(*b"TPE4", &body), Ok(FrameData::TPE4(_))));
    assert!(matches!(decode_frame(*b"TPUB", &body), Ok(FrameData::TPUB(_))));
    assert!(matches!(decode_frame(*b"TRSN", &body), Ok(FrameData::TRSN(_))));
    assert!(matches!(decode_frame(*b"TRSO", &body), Ok(FrameData::TRSO(_))));
    assert!(matches!(decode_frame(*b"TSOA", &body), Ok(FrameData::TSOA(_))));
    assert!(matches!(decode_frame(*b"TSOP", &body), Ok(FrameData::TSOP(_))));
    assert!(matches!(decode_frame(*b"TSOT", &body), Ok(FrameData::TSOT(_))));
    assert!(matches!(decode_frame(*b"TSRC", &body), Ok(FrameData::TSRC(_))));
    assert!(matches!(decode_frame(*b"TSSE", &body), Ok(FrameData::TSSE(_))));
    assert!(matches!(decode_frame(*b"TSST", &body), Ok(FrameData::TSST(_))));
    assert!(matches!(decode_frame(*b"TCON", &body), Ok(FrameData::TCON(_))));
}

#[test]
fn each_other_identifier_gives_its_own_variant() {
    let number = [0x00, 0x31, 0x32];
    assert!(matches!(decode_frame(*b"TBPM", &number), Ok(FrameData::TBPM(_))));
    assert!(matches!(decode_frame(*b"TDLY", &number), Ok(FrameData::TDLY(_))));
    assert!(matches!(decode_frame(*b"TLEN", &number), Ok(FrameData::TLEN(_))));
    assert!(matches!(decode_frame(*b"TPOS", &number), Ok(FrameData::TPOS(_))));
    assert!(matches!(decode_frame(*b"TRCK", &number), Ok(FrameData::TRCK(_))));
    let year = [0x00, 0x32, 0x30, 0x32, 0x31];
    assert!(matches!(decode_frame(*b"TDEN", &year), Ok(FrameData::TDEN(_))));
    assert!(matches!(decode_frame(*b"TDOR", &year), Ok(FrameData::TDOR(_))));
    assert!(matches!(decode_frame(*b"TDRC", &year), Ok(FrameData::TDRC(_))));
    assert!(matches!(decode_frame(*b"TDRL", &year), Ok(FrameData::TDRL(_))));
    assert!(matches!(decode_frame(*b"TDTG", &year), Ok(FrameData::TDTG(_))));
    assert!(matches!(decode_frame(*b"TCOP", &year), Ok(FrameData::TCOP(_))));
    assert!(matches!(decode_frame(*b"TPRO", &year), Ok(FrameData::TPRO(_))));
    let pair = b"\x00a\0b\0";
    assert!(matches!(decode_frame(*b"TIPL", pair), Ok(FrameData::TIPL(_))));
    assert!(matches!(decode_frame(*b"TMCL", pair), Ok(FrameData::TMCL(_))));
    let url = b"http://x";
    assert!(matches!(decode_frame(*b"WCOM", url), Ok(FrameData::WCOM(_))));
    assert!(matches!(decode_frame(*b"WCOP", url), Ok(FrameData::WCOP(_))));
    assert!(matches!(decode_frame(*b"WOAF", url), Ok(FrameData::WOAF(_))));
    assert!(matches!(decode_frame(*b"WOAR", url), Ok(FrameData::WOAR(_))));
    assert!(matches!(decode_frame(*b"WOAS", url), Ok(FrameData::WOAS(_))));
    assert!(matches!(decode_frame(*b"WORS", url), Ok(FrameData::WORS(_))));
    assert!(matches!(decode_frame(*b"WPAY", url), Ok(FrameData::WPAY(_))));
    assert!(matches!(decode_frame(*b"WPUB", url), Ok(FrameData::WPUB(_))));
    let comment = b"\x00engd\0t";
    assert!(matches!(decode_frame(*b"COMM", comment), Ok(FrameData::COMM(_))));
    assert!(matches!(decode_frame(*b"USLT", comment), Ok(FrameData::USLT(_))));
    assert!(matches!(decode_frame(*b"TXXX", b"\x00d\0t"), Ok(FrameData::TXXX(_))));
    assert!(matches!(decode_frame(*b"PRIV", b"o\0d"), Ok(FrameData::PRIV(_))));
    assert!(matches!(decode_frame(*b"RVRB", &[0u8; 12]), Ok(FrameData::RVRB(_))));
}

#[test]
fn track_frame() {
    match decode_frame(*b"TRCK", &[0x03, 0x33, 0x2f, 0x31, 0x32]) {
        Ok(FrameData::TRCK(v)) => assert_eq!(v, vec![Track { number: 3, max: Some(12) }]),
        other => panic!("unexpected: {:?}", other),
    }
}

#[test]
fn date_frame() {
    let mut body = vec![0x03u8];
    body.extend_from_slice(b"2021-06");
    match decode_frame(*b"TDRC", &body) {
        Ok(FrameData::TDRC(v)) => assert_eq!(
            v,
            vec![Date {
                year: 2021,
                month: Some(6),
                day: None,
                hour: None,
                minutes: None,
                seconds: None
            }]
        ),
        other => panic!("unexpected: {:?}", other),
    }
}

#[test]
fn number_frames() {
    match decode_frame(*b"TBPM", b"\x00120") {
        Ok(FrameData::TBPM(v)) => assert_eq!(v, vec![120u64]),
        other => panic!("unexpected: {:?}", other),
    }
    match decode_frame(*b"TLEN", b"\x00215000\x00+7") {
        Ok(FrameData::TLEN(v)) => assert_eq!(v, vec![215000u64, 7]),
        other => panic!("unexpected: {:?}", other),
    }
    assert!(matches!(
        decode_frame(*b"TDLY", b"\x00fast"),
        Err(FrameParseErrorReason::ParseIntError(_))
    ));
    assert!(matches!(
        decode_frame(*b"TDLY", b"\x0012\x00 13"),
        Err(FrameParseErrorReason::ParseIntError(_))
    ));
    // An empty payload is the one empty string, which is no number.
    assert!(matches!(decode_frame(*b"TBPM", b"\x00"), Err(FrameParseErrorReason::ParseIntError(_))));
}

#[test]
fn map_parse_reads_each_string() {
    assert_eq!(map_parse::<u64>(texts(&["1", "22", "333"])).unwrap(), vec![1u64, 22, 333]);
    assert_eq!(map_parse::<u64>(Vec::new()).unwrap(), Vec::<u64>::new());
    assert!(map_parse::<u64>(texts(&["1", "", "3"])).is_err());
    assert_eq!(
        map_parse::<Track>(texts(&["1/2", "3"])).unwrap(),
        vec![Track { number: 1, max: Some(2) }, Track { number: 3, max: None }]
    );
    assert!(matches!(
        map_parse::<Track>(texts(&["1/2", "x"])),
        Err(ParseTrackError::InvalidTrackNumber(_))
    ));
    assert!(matches!(
        map_parse::<Date>(texts(&["2020", "20"])),
        Err(ParseDateError::MissingYear)
    ));
    assert!(matches!(
        map_parse::<Date>(texts(&["20x0", "20"])),
        Err(ParseDateError::ParseIntError(_))
    ));
}

#[test]
fn value_frame_errors_keep_their_layer() {
    assert!(matches!(
        decode_frame(*b"TDRC", b"\x0320"),
        Err(FrameParseErrorReason::ParseDateError(ParseDateError::MissingYear))
    ));
    assert!(matches!(
        decode_frame(*b"TDRC", b"\x03year"),
        Err(FrameParseErrorReason::ParseDateError(ParseDateError::ParseIntError(_)))
    ));
    assert!(matches!(
        decode_frame(*b"TPOS", b"\x03one"),
        Err(FrameParseErrorReason::ParseTrackError(ParseTrackError::InvalidTrackNumber(_)))
    ));
    assert!(matches!(
        decode_frame(*b"TRCK", &[0x03, 0xff]),
        Err(FrameParseErrorReason::TextDecodeError(TextDecodeError::InvalidUtf8))
    ));
    assert!(matches!(
        decode_frame(*b"TALB", &[0x02, 0x00]),
        Err(FrameParseErrorReason::TextDecodeError(TextDecodeError::InvalidUtf16))
    ));
    assert!(matches!(
        decode_frame(*b"TALB", &[0x04, 0x00]),
        Err(FrameParseErrorReason::TextDecodeError(TextDecodeError::UnknownEncoding(4)))
    ));
}

#[test]
fn copyright_frames() {
    match decode_frame(*b"TCOP", b"\x002004 A\x001999B") {
        Ok(FrameData::TCOP(v)) => {
            assert_eq!(v.len(), 2);
            assert_eq!(v[0].year, 2004);
            assert_eq!(v[0].message, "A");
            assert_eq!(v[1].year, 1999);
            assert_eq!(v[1].message, "B");
        }
        other => panic!("unexpected: {:?}", other),
    }
    assert!(matches!(decode_frame(*b"TPRO", b"\x00204"), Err(FrameParseErrorReason::FrameTooSmall)));
    assert!(matches!(
        decode_frame(*b"TPRO", b"\x002004 A\x00then"),
        Err(FrameParseErrorReason::ParseIntError(_))
    ));
}

#[test]
fn comment_in_utf16_with_byte_order_mark() {
    let mut body = vec![0x01u8];
    body.extend_from_slice(b"eng");
    body.extend_from_slice(&[0xff, 0xfe]);
    for c in "desc".encode_utf16() {
        body.push((c & 0xff) as u8);
        body.push((c >> 8) as u8);
    }
    body.extend_from_slice(&[0x00, 0x00, 0xff, 0xfe]);
    for c in "hello".encode_utf16() {
        body.push((c & 0xff) as u8);
        body.push((c >> 8) as u8);
    }
    body.extend_from_slice(&[0x00, 0x00]);
    let comment = decode_lang_description_text(&body).unwrap();
    assert_eq!(&comment.iso_639_2_lang, b"eng");
    assert_eq!(comment.description, "desc");
    assert_eq!(comment.text, texts(&["hello"]));
    match decode_frame(*b"COMM", &body) {
        Ok(FrameData::COMM(c)) => {
            assert_eq!(&c.iso_639_2_lang, b"eng");
            assert_eq!(c.description, "desc");
            assert_eq!(c.text, texts(&["hello"]));
        }
        other => panic!("unexpected: {:?}", other),
    }
}

#[test]
fn lyrics_with_empty_description_and_several_texts() {
    match decode_frame(*b"USLT", b"\x03deu\0eins\0zwei") {
        Ok(FrameData::USLT(c)) => {
            assert_eq!(&c.iso_639_2_lang, b"deu");
            assert_eq!(c.description, "");
            assert_eq!(c.text, texts(&["eins", "zwei"]));
        }
        other => panic!("unexpected: {:?}", other),
    }
    // A description and nothing behind it.
    let c = decode_lang_description_text(b"\x00engabout\0").unwrap();
    assert_eq!(c.description, "about");
    assert!(c.text.is_empty());
}

#[test]
fn comment_errors() {
    assert!(matches!(
        decode_lang_description_text(b"\x00eng"),
        Err(FrameParseErrorReason::FrameTooSmall)
    ));
    assert!(matches!(
        decode_lang_description_text(b"\x00engno terminator"),
        Err(FrameParseErrorReason::MissingNullTerminator)
    ));
    assert!(matches!(
        decode_lang_description_text(b"\x05engd\0t"),
        Err(FrameParseErrorReason::TextDecodeError(TextDecodeError::UnknownEncoding(5)))
    ));
    assert!(matches!(
        decode_lang_description_text(&[0x03, 0x65, 0x6e, 0x67, 0xff, 0x00, 0x74]),
        Err(FrameParseErrorReason::TextDecodeError(TextDecodeError::InvalidUtf8))
    ));
    assert!(matches!(
        decode_lang_description_text(&[0x03, 0x65, 0x6e, 0x67, 0x64, 0x00, 0xff]),
        Err(FrameParseErrorReason::TextDecodeError(TextDecodeError::InvalidUtf8))
    ));
}

#[test]
fn description_and_text() {
    let (description, text) = decode_description_text(TextEncoding::ISO8859, b"d\0a\0b").unwrap();
    assert_eq!(description, "d");
    assert_eq!(text, texts(&["a", "b"]));
    let (description, text) =
        decode_description_text(TextEncoding::UTF16BE, &[0x00, 0x64, 0x00, 0x00, 0x00, 0x74])
            .unwrap();
    assert_eq!(description, "d");
    assert_eq!(text, texts(&["t"]));
    assert!(matches!(
        decode_description_text(TextEncoding::UTF16BE, &[0x00, 0x64, 0x00]),
        Err(FrameParseErrorReason::MissingNullTerminator)
    ));
}

#[test]
fn user_text_frame() {
    match decode_txxx_frame(b"\x00replaygain\0-6.5 dB\0") {
        Ok(FrameData::TXXX(t)) => {
            assert_eq!(t.description, "replaygain");
            assert_eq!(t.text, texts(&["-6.5 dB"]));
        }
        other => panic!("unexpected: {:?}", other),
    }
    assert!(matches!(decode_txxx_frame(b"\x00"), Err(FrameParseErrorReason::FrameTooSmall)));
    assert!(matches!(decode_txxx_frame(b""), Err(FrameParseErrorReason::FrameTooSmall)));
    assert!(matches!(
        decode_txxx_frame(b"\x00ab"),
        Err(FrameParseErrorReason::MissingNullTerminator)
    ));
}

#[test]
fn private_frame() {
    match decode_priv_frame(b"owner@example\0\x01\x02\x00\x03") {
        Ok(FrameData::PRIV(p)) => {
            assert_eq!(p.owner, "owner@example");
            assert_eq!(p.data, vec![1u8, 2, 0, 3]);
        }
        other => panic!("unexpected: {:?}", other),
    }
    match decode_priv_frame(b"owner\0") {
        Ok(FrameData::PRIV(p)) => {
            assert_eq!(p.owner, "owner");
            assert!(p.data.is_empty());
        }
        other => panic!("unexpected: {:?}", other),
    }
    assert!(matches!(
        decode_priv_frame(b"owner"),
        Err(FrameParseErrorReason::MissingNullTerminator)
    ));
    assert!(matches!(decode_priv_frame(b""), Err(FrameParseErrorReason::MissingNullTerminator)));
}

#[test]
fn url_frame() {
    assert_eq!(decode_url_frame(b"http://example.org/a"), "http://example.org/a");
    assert_eq!(decode_url_frame(b"http://example.org/a\0"), "http://example.org/a");
    // Only one zero byte is taken off.
    assert_eq!(decode_url_frame(b"x\0\0"), "x\0");
    assert_eq!(decode_url_frame(&[0xe9]), "\u{e9}");
    assert_eq!(decode_url_frame(&[0x00]), "");
    match decode_frame(*b"WOAR", b"../artist\0") {
        Ok(FrameData::WOAR(url)) => assert_eq!(url, "../artist"),
        other => panic!("unexpected: {:?}", other),
    }
}

#[test]
fn people_map() {
    let map = decode_text_map_frame(b"\x00producer\0Ann\0engineer\0Bob\0").unwrap();
    assert_eq!(map.len(), 2);
    assert_eq!(map.get("producer").map(|s| s.as_str()), Some("Ann"));
    assert_eq!(map.get("engineer").map(|s| s.as_str()), Some("Bob"));
    assert_eq!(map.get("singer"), None);
    let order: Vec<&str> = map.entries().iter().map(|e| e.0.as_str()).collect();
    assert_eq!(order, vec!["producer", "engineer"]);
}

#[test]
fn people_map_last_value_without_terminator() {
    let map = decode_text_map_frame(b"\x03producer\0Ann\0engineer\0Bob").unwrap();
    assert_eq!(map.len(), 2);
    assert_eq!(map.get("engineer").map(|s| s.as_str()), Some("Bob"));
    let map = decode_text_map_frame(&[0x02, 0x00, 0x6b, 0x00, 0x00, 0x00, 0x76]).unwrap();
    assert_eq!(map.len(), 1);
    assert_eq!(map.get("k").map(|s| s.as_str()), Some("v"));
}

#[test]
fn people_map_key_without_value() {
    assert!(matches!(
        decode_text_map_frame(b"\x00producer\0Ann\0engineer\0"),
        Err(FrameParseErrorReason::MissingValueInMapFrame)
    ));
    assert!(matches!(
        decode_text_map_frame(b"\x00producer\0"),
        Err(FrameParseErrorReason::MissingValueInMapFrame)
    ));
}

#[test]
fn people_map_edges() {
    // No terminator at all: nothing is a key.
    assert_eq!(decode_text_map_frame(b"\x00producer").unwrap().len(), 0);
    assert_eq!(decode_text_map_frame(b"\x00").unwrap().len(), 0);
    // Bytes behind the last pair without a terminator are left out.
    let map = decode_text_map_frame(b"\x00a\0b\0c").unwrap();
    assert_eq!(map.len(), 1);
    assert_eq!(map.get("a").map(|s| s.as_str()), Some("b"));
    // A key that comes twice keeps its last value.
    let map = decode_text_map_frame(b"\x00a\0b\0a\0c\0").unwrap();
    assert_eq!(map.len(), 1);
    assert_eq!(map.get("a").map(|s| s.as_str()), Some("c"));
    assert!(matches!(
        decode_text_map_frame(&[0x03, 0xff, 0x00, 0x62, 0x00]),
        Err(FrameParseErrorReason::TextDecodeError(TextDecodeError::InvalidUtf8))
    ));
    assert!(matches!(
        decode_text_map_frame(&[0x08, 0x61, 0x00, 0x62, 0x00]),
        Err(FrameParseErrorReason::TextDecodeError(TextDecodeError::UnknownEncoding(8)))
    ));
}

#[test]
fn unknown_frame_keeps_its_bytes() {
    match decode_frame(*b"APIC", &[1, 2, 3]) {
        Ok(FrameData::Unknown(u)) => {
            assert_eq!(&u.name, b"APIC");
            assert_eq!(u.data, vec![1u8, 2, 3]);
        }
        other => panic!("unexpected: {:?}", other),
    }
}
