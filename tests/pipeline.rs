use thermoscope::error::ThermalError;
use thermoscope::pipeline::{colorize, decode_samples, process_frame, thermal_color, Rgb};

fn raw_of(samples: &[u16]) -> Vec<u8> {
    let mut raw = Vec::new();
    for s in samples {
        raw.push((s & 0xff) as u8);
        raw.push((s >> 8) as u8);
    }
    raw
}

fn rgb(r: u8, g: u8, b: u8) -> Rgb {
    Rgb { r, g, b }
}

#[test]
fn three_sample_round_trip() {
    let raw = raw_of(&[0, 32767, 65535]);
    let out = process_frame(&raw, 3, 1).unwrap();
    assert_eq!(out, vec![rgb(0, 0, 0), rgb(255, 0, 0), rgb(255, 255, 255)]);
}

#[test]
fn decode_is_little_endian_with_extremes() {
    let raw = vec![0x34, 0x12, 0x01, 0x00, 0xff, 0xff, 0x00, 0x80];
    let (s, lo, hi) = decode_samples(&raw, 3);
    assert_eq!(s, vec![0x1234, 1, 0xffff]);
    assert_eq!((lo, hi), (1, 0xffff));
}

#[test]
fn same_input_same_frame() {
    let raw = raw_of(&[5, 900, 17, 40000, 12, 12, 65000, 3]);
    let a = process_frame(&raw, 4, 2).unwrap();
    let b = process_frame(&raw, 4, 2).unwrap();
    assert_eq!(a, b);
    assert_eq!(a.len(), 8);
}

#[test]
fn uniform_frame_is_black() {
    for v in [0u16, 1, 777, 65535] {
        let raw = raw_of(&[v; 12]);
        let out = process_frame(&raw, 4, 3).unwrap();
        assert_eq!(out, vec![rgb(0, 0, 0); 12]);
    }
}

#[test]
fn band_boundaries_are_continuous() {
    let range: u16 = 65535;
    for boundary in [16384u16, 32768, 49152] {
        for d in boundary - 3..boundary + 3 {
            let a = thermal_color(d, 0, range);
            let b = thermal_color(d + 1, 0, range);
            assert!((a.r as i32 - b.r as i32).abs() <= 1);
            assert!((a.g as i32 - b.g as i32).abs() <= 1);
            assert!((a.b as i32 - b.b as i32).abs() <= 1);
        }
    }
}

#[test]
fn band_values() {
    assert_eq!(thermal_color(32, 0, 256), rgb(0, 0, 128));
    assert_eq!(thermal_color(64, 0, 256), rgb(0, 0, 255));
    assert_eq!(thermal_color(96, 0, 256), rgb(128, 0, 128));
    assert_eq!(thermal_color(128, 0, 256), rgb(255, 0, 0));
    assert_eq!(thermal_color(160, 0, 256), rgb(255, 128, 0));
    assert_eq!(thermal_color(192, 0, 256), rgb(255, 255, 0));
    assert_eq!(thermal_color(224, 0, 256), rgb(255, 255, 128));
    assert_eq!(thermal_color(256, 0, 256), rgb(255, 255, 255));
    assert_eq!(thermal_color(1000, 1000, 1000), rgb(0, 0, 0));
}

#[test]
fn short_buffer_is_truncated_frame() {
    let raw = raw_of(&[1, 2, 3]);
    assert_eq!(process_frame(&raw, 2, 2), Err(ThermalError::TruncatedFrame));
    assert_eq!(process_frame(&vec![0u8; 7], 2, 2), Err(ThermalError::TruncatedFrame));
    assert_eq!(process_frame(&vec![0u8; 10], usize::MAX, 2), Err(ThermalError::TruncatedFrame));
}

#[test]
fn long_buffer_is_cut_to_frame() {
    let raw = raw_of(&[0, 100, 50000]);
    let out = process_frame(&raw, 2, 1).unwrap();
    assert_eq!(out, vec![rgb(0, 0, 0), rgb(255, 255, 255)]);
    assert_eq!(process_frame(&Vec::new(), 0, 5), Ok(Vec::new()));
}

#[test]
fn colorize_keeps_order() {
    let out = colorize(&vec![256, 0, 128], 0, 256);
    assert_eq!(out, vec![rgb(255, 255, 255), rgb(0, 0, 0), rgb(255, 0, 0)]);
}
