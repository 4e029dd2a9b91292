use video_exporter::resolution::{decimal_string, resolution_string};
use video_exporter::{parse_resolution, VideoExportError};

fn assert_invalid(text: &str) {
    match parse_resolution(text) {
        Err(VideoExportError::InvalidResolution(t)) => assert_eq!(t, text),
        other => panic!("expected InvalidResolution for {:?}, got {:?}", text, other),
    }
}

#[test]
fn parses_common_resolutions() {
    assert_eq!(parse_resolution("1920x1080").unwrap(), (1920, 1080));
    assert_eq!(parse_resolution("1280x720").unwrap(), (1280, 720));
    assert_eq!(parse_resolution("3840x2160").unwrap(), (3840, 2160));
}

#[test]
fn parses_zero_and_extreme_values() {
    assert_eq!(parse_resolution("0x0").unwrap(), (0, 0));
    assert_eq!(parse_resolution("4294967295x1").unwrap(), (4294967295, 1));
    assert_eq!(parse_resolution("1x4294967295").unwrap(), (1, 4294967295));
}

#[test]
fn accepts_plus_sign_and_leading_zeros() {
    assert_eq!(parse_resolution("+1920x+1080").unwrap(), (1920, 1080));
    assert_eq!(parse_resolution("001920x0001080").unwrap(), (1920, 1080));
}

#[test]
fn rejects_values_that_overflow_u32() {
    assert_invalid("4294967296x1");
    assert_invalid("1x99999999999");
}

#[test]
fn rejects_wrong_number_of_separators() {
    assert_invalid("1920");
    assert_invalid("1920x1080x3");
    assert_invalid("1920xx1080");
    assert_invalid("");
}

#[test]
fn rejects_empty_parts() {
    assert_invalid("x1080");
    assert_invalid("1920x");
    assert_invalid("x");
    assert_invalid("+x5");
}

#[test]
fn rejects_other_characters() {
    assert_invalid("1920X1080");
    assert_invalid(" 1920x1080");
    assert_invalid("1920 x 1080");
    assert_invalid("-1x5");
    assert_invalid("19.2x10");
    assert_invalid("１９２０x1080");
}

#[test]
fn decimal_text_of_numbers() {
    assert_eq!(decimal_string(0), "0");
    assert_eq!(decimal_string(7), "7");
    assert_eq!(decimal_string(30), "30");
    assert_eq!(decimal_string(4294967295), "4294967295");
}

#[test]
fn resolution_text_of_sizes() {
    assert_eq!(resolution_string(1920, 1080), "1920x1080");
    assert_eq!(resolution_string(0, 10), "0x10");
}

#[test]
fn resolution_text_reads_back() {
    for &(w, h) in &[(0u32, 0u32), (1, 2), (1920, 1080), (4294967295, 4294967295), (10, 100)] {
        assert_eq!(parse_resolution(&resolution_string(w, h)).unwrap(), (w, h));
    }
}
