use scale_log::scale::{ScaleUnit, ScaleWeight, WeightConversionError};
use scale_log::session::{line_of_block, reading_of_block};
use scale_log::text::last_line;

fn parse_err(s: &str) -> WeightConversionError {
    match ScaleWeight::from_str(s) {
        Ok(w) => panic!("unexpected reading {:?}", w),
        Err(e) => e,
    }
}

#[test]
fn pounds_frame_decodes() {
    let w = ScaleWeight::from_str("ST    12.50    lb").unwrap();
    assert_eq!(w.unit, ScaleUnit::Pounds);
    assert_eq!(w.value, "12.50");
    assert_eq!(w.value.parse::<f32>().unwrap(), 12.50);
    assert!(w.stable);
}

#[test]
fn kilograms_unstable_frame_decodes() {
    let w = ScaleWeight::from_str("US    -3.00    kg ").unwrap();
    assert_eq!(w.unit, ScaleUnit::Kilograms);
    assert_eq!(w.value.parse::<f32>().unwrap(), -3.00);
    assert!(!w.stable);
}

#[test]
fn suffix_starting_at_offset_fourteen_is_read_whole() {
    let w = ScaleWeight::from_str("ST    12.50   lb ").unwrap();
    assert_eq!(w.unit, ScaleUnit::Pounds);
    assert_eq!(w.value.parse::<f32>().unwrap(), 12.50);
    assert!(w.stable);
    let w = ScaleWeight::from_str("US    -3.00   kg ").unwrap();
    assert_eq!(w.unit, ScaleUnit::Kilograms);
    assert_eq!(w.value.parse::<f32>().unwrap(), -3.00);
    assert!(!w.stable);
    assert_eq!(parse_err("ST    12.50   ft "), WeightConversionError::InvalidUnit);
}

#[test]
fn readings_clone_and_compare() {
    let w = ScaleWeight::from_str("ST    12.50    lb").unwrap();
    let c = w.clone();
    assert_eq!(c, w);
    assert_eq!(c.time, w.time);
}

#[test]
fn every_unit_decodes() {
    let cases = [
        ("oz", ScaleUnit::Ounces),
        ("lb", ScaleUnit::Pounds),
        ("g", ScaleUnit::Grams),
        ("kg", ScaleUnit::Kilograms),
    ];
    for (suffix, unit) in cases {
        let frame = format!("ST    1.5      {}\r", suffix);
        let w = ScaleWeight::from_str(&frame).unwrap();
        assert_eq!(w.unit, unit);
        assert_eq!(w.unit.to_string(), suffix);
        assert_eq!(w.value, "1.5");
    }
}

#[test]
fn short_texts_are_invalid_string() {
    let full = "ST    12.50    lb";
    for n in 0..16 {
        assert_eq!(parse_err(&full[..n]), WeightConversionError::InvalidString);
    }
    assert_eq!(parse_err("XX"), WeightConversionError::InvalidString);
    assert!(ScaleWeight::from_str(&full[..16]).is_err());
    assert_eq!(parse_err(&full[..16]), WeightConversionError::InvalidUnit);
}

#[test]
fn bad_flag_is_invalid_stable() {
    assert_eq!(parse_err("XX    12.50    lb"), WeightConversionError::InvalidStable);
    assert_eq!(parse_err("XX    abc      ft"), WeightConversionError::InvalidStable);
    assert_eq!(parse_err("st    12.50    lb"), WeightConversionError::InvalidStable);
}

#[test]
fn non_numeric_value_is_invalid_weight() {
    assert_eq!(parse_err("ST    abc      lb"), WeightConversionError::InvalidWeight);
    assert_eq!(parse_err("US             kg"), WeightConversionError::InvalidWeight);
    assert_eq!(parse_err("ST    abc      ft"), WeightConversionError::InvalidWeight);
}

#[test]
fn feet_is_invalid_unit() {
    assert_eq!(parse_err("ST    12.50    ft"), WeightConversionError::InvalidUnit);
    assert_eq!(parse_err("ST    12.50        "), WeightConversionError::InvalidUnit);
}

#[test]
fn value_field_follows_float_syntax() {
    let values = [
        "12.50", "-3", "+4.", ".5", "1e3", "1E-3", "2.5e+7", "inf", "Infinity", "NaN", "0",
        "abc", "1.2.3", "e5", ".", "+", "-", "1e", "1e+", "infin", "--1", "1_0", "0x10", "1,5",
    ];
    for v in values {
        let frame = format!("ST    {:<8} lb", v);
        let accepted = ScaleWeight::from_str(&frame).is_ok();
        assert_eq!(accepted, v.parse::<f32>().is_ok(), "value {:?}", v);
    }
}

#[test]
fn arbitrary_text_never_panics() {
    let texts = [
        String::new(),
        "\n".repeat(40),
        "ÄÖÜ".repeat(10),
        "ST ÄÖ 12.50    lb".to_string(),
        "ST    12.5ü    lb".to_string(),
        "US    1.0      kgé".to_string(),
        "\u{2003}".repeat(20),
    ];
    for t in texts.iter() {
        let _ = ScaleWeight::from_str(t);
        let _ = last_line(t);
    }
    assert_eq!(ScaleWeight::from_str("ST ÄÖ 12.50    lb").unwrap().value, "12.50");
    assert_eq!(parse_err("ST    12.5ü    lb"), WeightConversionError::InvalidWeight);
    assert_eq!(parse_err("US    1.0      kgé"), WeightConversionError::InvalidUnit);
}

#[test]
fn unicode_padding_is_trimmed() {
    let w = ScaleWeight::from_str("ST\u{3000}\u{3000}\u{3000}\u{3000}7.25\u{a0}\u{a0}\u{a0}\u{a0} g\u{2028}")
        .unwrap();
    assert_eq!(w.value, "7.25");
    assert_eq!(w.unit, ScaleUnit::Grams);
}

#[test]
fn last_line_takes_second_to_last_segment() {
    assert_eq!(last_line("a\nb\nc"), Some("b".to_string()));
    assert_eq!(last_line("abc"), None);
    assert_eq!(last_line("a\nb"), Some("a".to_string()));
    assert_eq!(last_line("ab\ncd"), Some("ab".to_string()));
    assert_eq!(last_line("\n"), Some("".to_string()));
    assert_eq!(last_line(""), None);
    assert_eq!(last_line("a\nb\n\n  \nc"), Some("".to_string()));
    assert_eq!(last_line("a\nb  \r\nc"), Some("b".to_string()));
    assert_eq!(last_line("lb\r\nST    12.50    lb\r\nST  "), Some("ST    12.50    lb".to_string()));
    assert_eq!(last_line("x\n  keep leading\n"), Some("  keep leading".to_string()));
    assert_eq!(last_line("x\n  keep leading\ny"), Some("  keep leading".to_string()));
}

#[test]
fn block_with_invalid_bytes_still_gives_its_line() {
    let mut block: Vec<u8> = vec![0xff, 0xfe, b'\n'];
    block.extend_from_slice(b"US    0.75     oz\r\n");
    block.extend_from_slice(&[0xc3, b'S', b'T']);
    assert_eq!(line_of_block(&block), Some("US    0.75     oz".to_string()));
    let w = reading_of_block(&block).unwrap();
    assert_eq!(w.unit, ScaleUnit::Ounces);
    assert_eq!(w.value, "0.75");
    assert!(!w.stable);
}

#[test]
fn invalid_bytes_are_replaced() {
    let block: Vec<u8> = vec![b'a', b'\n', 0xff, b'z', b'\n', b'q'];
    assert_eq!(line_of_block(&block), Some("\u{fffd}z".to_string()));
}

#[test]
fn block_without_complete_frame_gives_no_reading() {
    assert!(reading_of_block(b"ST    12.50    lb").is_none());
    assert!(reading_of_block(b"x\nST    12.50    lb\n").is_some());
    assert!(reading_of_block(b"x\nXX    12.50    lb\n").is_none());
    assert!(reading_of_block(b"\nST    12.50    lb\n").is_some());
    assert!(reading_of_block(b"ST    12.50    lb\r\nST  ").is_some());
    assert!(reading_of_block(b"ST    12.50    lb\n\n").is_none());
    assert!(reading_of_block(b"").is_none());
}
