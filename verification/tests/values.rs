use deluge::error::SerializationError;
use deluge::values::hexu50::{map_hexu50_i32, read_hexu50, write_hexu50, HexU50};
use deluge::values::pan::{read_pan, write_pan, Pan};
use deluge::values::retrig_phase::{write_phase, RetrigPhase};
use deluge::values::sample_path::SamplePath;
use deluge::values::{map_i32_u32, write_hexadecimal_u32};

#[test]
fn test_read_write_hexu50_40() {
    let value = HexU50(1);

    assert_eq!(value, read_hexu50(&write_hexu50(value).unwrap()).unwrap());
}

#[test]
fn test_read_pan_32() {
    assert_eq!(Pan::new(32).unwrap(), read_pan("0x7FFFFFFF").unwrap());
}

#[test]
fn test_map_hexu50_i32_50() {
    assert_eq!(2147483647i32, map_hexu50_i32(HexU50(50)));
    assert_eq!(2147483647u32, map_i32_u32(2147483647i32).unwrap());
    assert_eq!("0x7FFFFFFF", write_hexadecimal_u32(2147483647u32));
}

#[test]
fn read_hexu50_known_values() {
    assert_eq!(HexU50(0), read_hexu50("0x80000000").unwrap());
    assert_eq!(HexU50(1), read_hexu50("0x851EB851").unwrap());
    assert_eq!(HexU50(25), read_hexu50("0x00000000").unwrap());
    assert_eq!(HexU50(49), read_hexu50("0x7AE14781").unwrap());
    assert_eq!(HexU50(50), read_hexu50("0x7FFFFFFF").unwrap());
}

#[test]
fn write_hexu50_known_values() {
    assert_eq!("0x80000000", write_hexu50(HexU50(0)).unwrap());
    assert_eq!("0x851EB851", write_hexu50(HexU50(1)).unwrap());
    assert_eq!("0x00000000", write_hexu50(HexU50(25)).unwrap());
    assert_eq!("0x7FFFFFFF", write_hexu50(HexU50(50)).unwrap());
}

#[test]
fn hexu50_round_trip_every_value() {
    for v in 0..=50u8 {
        assert_eq!(HexU50(v), read_hexu50(&write_hexu50(HexU50(v)).unwrap()).unwrap());
    }
}

#[test]
fn read_hexu50_refuses_bad_text() {
    assert!(matches!(read_hexu50("0xZZ"), Err(SerializationError::ParseHexdecimalU32Error(..))));
}

#[test]
fn write_pan_known_values() {
    assert_eq!("0x7FFFFFFF", write_pan(Pan::new(32).unwrap()).unwrap());
    assert_eq!("0x00000000", write_pan(Pan::new(0).unwrap()).unwrap());
    assert_eq!("0x70000000", write_pan(Pan::new(28).unwrap()).unwrap());
}

#[test]
fn pan_round_trip_every_value() {
    for v in -32..=32i8 {
        let pan = Pan::new(v).unwrap();
        assert_eq!(pan, read_pan(&write_pan(pan).unwrap()).unwrap());
    }
}

#[test]
fn pan_out_of_range() {
    assert!(matches!(Pan::new(33), Err(SerializationError::Overflow(_, _))));
    assert!(matches!(Pan::new(-33), Err(SerializationError::Underflow(_, _))));
}

#[test]
fn retrig_phase_normalises() {
    assert_eq!(RetrigPhase::Degrees(10), RetrigPhase::new(370));
    assert_eq!(RetrigPhase::Degrees(360), RetrigPhase::new(360));
    assert_eq!(RetrigPhase::Degrees(0), RetrigPhase::new(0));
}

#[test]
fn sample_path_is_normalised() {
    let a = SamplePath::new("SAMPLES/./A.WAV").unwrap();
    let b = SamplePath::new("SAMPLES/A.WAV").unwrap();
    assert_eq!(a, b);
    assert_eq!("SAMPLES/A.WAV", b.as_str());
}

#[test]
fn sample_path_must_be_relative() {
    assert!(SamplePath::new("/SAMPLES/A.WAV").is_err());
}

#[test]
fn write_hexu50_refuses_values_above_50() {
    assert_eq!(
        Err(SerializationError::Overflow("51".to_string(), "50".to_string())),
        write_hexu50(HexU50(51))
    );
}

#[test]
fn test_write_phase() {
    assert_eq!(Ok("-2135553312".to_string()), write_phase(RetrigPhase::Degrees(181)));
    assert_eq!(Ok("-1".to_string()), write_phase(RetrigPhase::Off));
    assert_eq!(Ok("0".to_string()), write_phase(RetrigPhase::Degrees(0)));
}
