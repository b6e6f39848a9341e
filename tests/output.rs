use temp_monitor::format::{format_line, format_reading, render_line, Calibration};
use temp_monitor::mailbox::Measurement;
use temp_monitor::morse::{next_letter, CodeBlip};
use temp_monitor::recorder::{parse_data, take_line};

fn text(v: Vec<u8>) -> String {
    String::from_utf8(v).unwrap()
}

#[test]
fn format_line_example() {
    let m = Measurement { temperature_tenths: 986, timestamp_ms: 103500 };
    assert_eq!(text(format_line(&m)), "103500,98.60\n");
}

#[test]
fn format_reading_cases() {
    assert_eq!(text(format_reading(0, 0)), "0,0.00\n");
    assert_eq!(text(format_reading(7, 5)), "7,0.05\n");
    assert_eq!(text(format_reading(12, -5)), "12,-0.05\n");
    assert_eq!(text(format_reading(u32::MAX, -4000)), "4294967295,-40.00\n");
    assert_eq!(text(format_reading(1, i64::MIN)), "1,-92233720368547758.08\n");
}

#[test]
fn render_converts_to_fahrenheit() {
    let m = Measurement { temperature_tenths: 370, timestamp_ms: 103500 };
    assert_eq!(text(render_line(&m, &Calibration::identity())), "103500,98.60\n");
    let m = Measurement { temperature_tenths: -400, timestamp_ms: 1 };
    assert_eq!(text(render_line(&m, &Calibration::identity())), "1,-40.00\n");
    let m = Measurement { temperature_tenths: 371, timestamp_ms: 2 };
    assert_eq!(text(render_line(&m, &Calibration::identity())), "2,98.78\n");
}

#[test]
fn render_applies_calibration() {
    let cal = Calibration { factor_num: 9, factor_den: 10, offset_hundredths: -100 };
    let m = Measurement { temperature_tenths: 370, timestamp_ms: 5 };
    assert_eq!(cal.display_hundredths(370), 8774);
    assert_eq!(text(render_line(&m, &cal)), "5,87.74\n");
    // -4000 * 9 / 10 rounds toward zero
    let cal = Calibration { factor_num: 1, factor_den: 3, offset_hundredths: 0 };
    assert_eq!(cal.display_hundredths(-400), -1333);
}

#[test]
fn parse_data_two_fields() {
    assert_eq!(parse_data("103500,98.60\r\n"), Some(("103500".to_string(), "98.60".to_string())));
    assert_eq!(parse_data("  1,2  "), Some(("1".to_string(), "2".to_string())));
    assert_eq!(parse_data("1,"), Some(("1".to_string(), "".to_string())));
    assert_eq!(parse_data(" a b , c "), Some(("a b ".to_string(), " c".to_string())));
}

#[test]
fn parse_data_rejects_other_shapes() {
    assert_eq!(parse_data("1,2,3"), None);
    assert_eq!(parse_data("no comma"), None);
    assert_eq!(parse_data(""), None);
    assert_eq!(parse_data(" \n"), None);
}

#[test]
fn take_line_splits_at_newline() {
    let mut buf = b"12,3\n45,6\n7".to_vec();
    assert_eq!(take_line(&mut buf), Some(b"12,3\n".to_vec()));
    assert_eq!(buf, b"45,6\n7".to_vec());
    assert_eq!(take_line(&mut buf), Some(b"45,6\n".to_vec()));
    assert_eq!(take_line(&mut buf), None);
    assert_eq!(buf, b"7".to_vec());
}

#[test]
fn next_letter_codes() {
    let mut input = [0u8; 128];
    input[..6].copy_from_slice(b"aZ0!9s");
    let a = next_letter(0, 6, &input).unwrap();
    assert_eq!(a.num_blips, 2);
    assert_eq!(a.blip(0), CodeBlip::Dot);
    assert_eq!(a.blip(1), CodeBlip::Dash);
    let z = next_letter(1, 6, &input).unwrap();
    assert_eq!(z.num_blips, 4);
    assert_eq!([z.blip(0), z.blip(1), z.blip(2), z.blip(3)], [CodeBlip::Dash, CodeBlip::Dash, CodeBlip::Dot, CodeBlip::Dot]);
    let zero = next_letter(2, 6, &input).unwrap();
    assert_eq!(zero.num_blips, 5);
    assert!((0..5).all(|k| zero.blip(k) == CodeBlip::Dash));
    assert_eq!(next_letter(3, 6, &input), None);
    let nine = next_letter(4, 6, &input).unwrap();
    assert_eq!(nine.num_blips, 5);
    assert_eq!(nine.blip(4), CodeBlip::Dot);
    assert_eq!(nine.blip(3), CodeBlip::Dash);
    let s = next_letter(5, 6, &input).unwrap();
    assert_eq!(s, next_letter(0, 1, b"S".iter().chain([0u8; 127].iter()).copied().collect::<Vec<u8>>().as_slice().try_into().unwrap()).unwrap());
    assert_eq!(next_letter(6, 6, &input), None);
}
