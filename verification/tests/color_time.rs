use tinymist_task::color::{color_name, parse_color, ColorError, NamedColor};
use tinymist_task::datetime::{convert_datetime, convert_source_date_epoch, TimestampOutOfRange, UtcDateTime};
use typst::visualize::Color;

#[test]
fn named_colors() {
    assert_eq!(parse_color("black".to_string()), Ok(Color::BLACK));
    assert_eq!(parse_color("white".to_string()), Ok(Color::WHITE));
    assert_eq!(parse_color("red".to_string()), Ok(Color::RED));
    assert_eq!(parse_color("green".to_string()), Ok(Color::GREEN));
    assert_eq!(parse_color("blue".to_string()), Ok(Color::BLUE));
    assert_eq!(color_name("blue"), Some(NamedColor::Blue));
    assert_eq!(color_name("Blue"), None);
}

#[test]
fn hex_colors() {
    assert_eq!(parse_color("#ffffff".to_string()), Ok(Color::from_u8(255, 255, 255, 255)));
    assert_eq!(parse_color("#f00".to_string()), Ok(Color::from_u8(255, 0, 0, 255)));
    assert_eq!(parse_color("#11223344".to_string()), Ok(Color::from_u8(0x11, 0x22, 0x33, 0x44)));
    assert_eq!(parse_color("##abc".to_string()), Ok(Color::from_u8(0xaa, 0xbb, 0xcc, 255)));
}

#[test]
fn bad_colors() {
    assert!(matches!(parse_color("#12345".to_string()), Err(ColorError::InvalidHex(_))));
    assert!(matches!(parse_color("#ggg".to_string()), Err(ColorError::InvalidHex(_))));
    assert!(matches!(parse_color("#".to_string()), Err(ColorError::InvalidHex(_))));
    assert_eq!(parse_color("Red".to_string()), Err(ColorError::InvalidColor));
    assert_eq!(parse_color("fff".to_string()), Err(ColorError::InvalidColor));
    assert_eq!(parse_color(String::new()), Err(ColorError::InvalidColor));
}

#[test]
fn epoch_conversion() {
    assert_eq!(
        convert_source_date_epoch(0),
        Ok(UtcDateTime { year: 1970, month: 1, day: 1, hour: 0, minute: 0, second: 0 })
    );
    assert_eq!(
        convert_source_date_epoch(1_700_000_000),
        Ok(UtcDateTime { year: 2023, month: 11, day: 14, hour: 22, minute: 13, second: 20 })
    );
    assert_eq!(convert_source_date_epoch(i64::MAX), Err(TimestampOutOfRange));
}

#[test]
fn timestamps_for_typst() {
    let d = UtcDateTime { year: 2024, month: 2, day: 29, hour: 23, minute: 59, second: 59 };
    assert!(convert_datetime(d).is_some());
    let bad = UtcDateTime { year: 2023, month: 2, day: 29, hour: 0, minute: 0, second: 0 };
    assert!(convert_datetime(bad).is_none());
    let far = UtcDateTime { year: 200_000, month: 1, day: 1, hour: 0, minute: 0, second: 0 };
    assert!(convert_datetime(far).is_none());
    let big = UtcDateTime { year: 2024, month: 300, day: 1, hour: 0, minute: 0, second: 0 };
    assert!(convert_datetime(big).is_none());
}
