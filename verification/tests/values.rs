use id3_decoder::errors::{FrameParseErrorReason, ParseDateError, ParseTrackError};
use id3_decoder::values::{decode_copyright_frame, decode_reverb_frame, Date, Reverb, Track};

#[test]
fn date_with_year_and_month() {
    assert_eq!(
        Date::from_str("2021-06").unwrap(),
        Date { year: 2021, month: Some(6), day: None, hour: None, minutes: None, seconds: None }
    );
}

#[test]
fn date_of_every_precision() {
    assert_eq!(
        Date::from_str("1999").unwrap(),
        Date { year: 1999, month: None, day: None, hour: None, minutes: None, seconds: None }
    );
    assert_eq!(
        Date::from_str("1999-12-31").unwrap(),
        Date { year: 1999, month: Some(12), day: Some(31), hour: None, minutes: None, seconds: None }
    );
    assert_eq!(
        Date::from_str("1999-12-31T23").unwrap(),
        Date {
            year: 1999,
            month: Some(12),
            day: Some(31),
            hour: Some(23),
            minutes: None,
            seconds: None
        }
    );
    assert_eq!(
        Date::from_str("1999-12-31T23:59").unwrap(),
        Date {
            year: 1999,
            month: Some(12),
            day: Some(31),
            hour: Some(23),
            minutes: Some(59),
            seconds: None
        }
    );
    assert_eq!(
        Date::from_str("1999-12-31T23:59:58").unwrap(),
        Date {
            year: 1999,
            month: Some(12),
            day: Some(31),
            hour: Some(23),
            minutes: Some(59),
            seconds: Some(58)
        }
    );
}

#[test]
fn date_cut_inside_a_part_leaves_the_part_out() {
    assert_eq!(
        Date::from_str("2021-0").unwrap(),
        Date { year: 2021, month: None, day: None, hour: None, minutes: None, seconds: None }
    );
}

#[test]
fn date_without_year() {
    assert!(matches!(Date::from_str(""), Err(ParseDateError::MissingYear)));
    assert!(matches!(Date::from_str("202"), Err(ParseDateError::MissingYear)));
    // The fourth byte lies inside a character, so there is no slice of four bytes.
    assert!(matches!(Date::from_str("200\u{e9}"), Err(ParseDateError::MissingYear)));
}

#[test]
fn date_with_a_part_that_is_no_number() {
    assert!(matches!(Date::from_str("abcd"), Err(ParseDateError::ParseIntError(_))));
    assert!(matches!(Date::from_str("2021-xx"), Err(ParseDateError::ParseIntError(_))));
    assert!(matches!(Date::from_str("2021-06-3x"), Err(ParseDateError::ParseIntError(_))));
    assert!(matches!(Date::from_str("20\u{e9}1"), Err(ParseDateError::ParseIntError(_))));
    assert!(matches!(Date::from_str("-021"), Err(ParseDateError::ParseIntError(_))));
    assert!(matches!(Date::from_str("2021-06-07T2 :00"), Err(ParseDateError::ParseIntError(_))));
}

#[test]
fn date_parts_are_read_as_the_standard_library_reads_numbers() {
    // A sign is accepted, and no part is held to a calendar.
    assert_eq!(Date::from_str("+123").unwrap().year, 123);
    let d = Date::from_str("2021-13-32T24:61:99").unwrap();
    assert_eq!(d.month, Some(13));
    assert_eq!(d.day, Some(32));
    assert_eq!(d.hour, Some(24));
    assert_eq!(d.minutes, Some(61));
    assert_eq!(d.seconds, Some(99));
    // The separators are not looked at.
    assert_eq!(Date::from_str("2021x06").unwrap().month, Some(6));
}

#[test]
fn track_with_max() {
    assert_eq!(Track::from_str("3/12").unwrap(), Track { number: 3, max: Some(12) });
}

#[test]
fn track_without_max() {
    assert_eq!(Track::from_str("7").unwrap(), Track { number: 7, max: None });
    assert_eq!(
        Track::from_str("18446744073709551615").unwrap(),
        Track { number: u64::MAX, max: None }
    );
}

#[test]
fn track_splits_at_the_first_slash_only() {
    assert!(matches!(Track::from_str("1/2/3"), Err(ParseTrackError::InvalidTrackNumber(_))));
}

#[test]
fn track_that_is_no_number() {
    assert!(matches!(Track::from_str(""), Err(ParseTrackError::InvalidTrackNumber(_))));
    assert!(matches!(Track::from_str("x"), Err(ParseTrackError::InvalidTrackNumber(_))));
    assert!(matches!(Track::from_str("/4"), Err(ParseTrackError::InvalidTrackNumber(_))));
    assert!(matches!(Track::from_str("4/"), Err(ParseTrackError::InvalidTrackNumber(_))));
    assert!(matches!(Track::from_str("4/x"), Err(ParseTrackError::InvalidTrackNumber(_))));
    assert!(matches!(
        Track::from_str("18446744073709551616"),
        Err(ParseTrackError::InvalidTrackNumber(_))
    ));
}

#[test]
fn copyright_year_and_holder() {
    let c = decode_copyright_frame("2004 Some Label".to_string()).unwrap();
    assert_eq!(c.year, 2004);
    assert_eq!(c.message, "Some Label");
    let c = decode_copyright_frame("2004Some Label".to_string()).unwrap();
    assert_eq!(c.year, 2004);
    assert_eq!(c.message, "Some Label");
    // Only one space belongs to the year.
    let c = decode_copyright_frame("1987  A".to_string()).unwrap();
    assert_eq!(c.year, 1987);
    assert_eq!(c.message, " A");
    let c = decode_copyright_frame("1987".to_string()).unwrap();
    assert_eq!(c.year, 1987);
    assert_eq!(c.message, "");
    let c = decode_copyright_frame("2004 Caf\u{e9}".to_string()).unwrap();
    assert_eq!(c.message, "Caf\u{e9}");
}

#[test]
fn copyright_errors() {
    assert!(matches!(
        decode_copyright_frame("200".to_string()),
        Err(FrameParseErrorReason::FrameTooSmall)
    ));
    assert!(matches!(
        decode_copyright_frame("".to_string()),
        Err(FrameParseErrorReason::FrameTooSmall)
    ));
    assert!(matches!(
        decode_copyright_frame("year 2004".to_string()),
        Err(FrameParseErrorReason::ParseIntError(_))
    ));
    // Four bytes end inside a character.
    assert!(matches!(
        decode_copyright_frame("200\u{e9} x".to_string()),
        Err(FrameParseErrorReason::ParseIntError(_))
    ));
}

#[test]
fn reverb_layout() {
    let frame = [0x01, 0x02, 0x03, 0x04, 5, 6, 7, 8, 9, 10, 11, 12];
    assert_eq!(
        decode_reverb_frame(&frame).unwrap(),
        Reverb {
            ms_left: 0x0102,
            ms_right: 0x0304,
            bounces_left: 5,
            bounces_right: 6,
            feedback_left_to_left: 7,
            feedback_left_to_right: 8,
            feedback_right_to_right: 9,
            feedback_right_to_left: 10,
            premix_left_to_right: 11,
            premix_right_to_left: 12,
        }
    );
    // Bytes behind the twelfth are not read.
    let long = [0xff, 0xfe, 0x00, 0x01, 5, 6, 7, 8, 9, 10, 11, 12, 13, 14];
    let r = decode_reverb_frame(&long).unwrap();
    assert_eq!(r.ms_left, 0xfffe);
    assert_eq!(r.ms_right, 1);
}

#[test]
fn reverb_too_small() {
    assert!(matches!(
        decode_reverb_frame(&[0u8; 11]),
        Err(FrameParseErrorReason::FrameTooSmall)
    ));
    assert!(matches!(decode_reverb_frame(&[]), Err(FrameParseErrorReason::FrameTooSmall)));
}
