use meteo_link::sensor::sensors::adc::light_level;
use meteo_link::sensor::sensors::dht11::{decode_frame, record_bit, Dht11Reading};
use meteo_link::sensor::sensors::dps310::{
    parse_calibration, raw_sample, sign_extend_20, sign_extend_24, Calibration,
};

#[test]
fn sign_extend_24_values() {
    assert_eq!(sign_extend_24(0), 0);
    assert_eq!(sign_extend_24(0x7F_FFFF), 8_388_607);
    assert_eq!(sign_extend_24(0x80_0000), -8_388_608);
    assert_eq!(sign_extend_24(0xFF_FFFF), -1);
    // Bits above the 24th are ignored.
    assert_eq!(sign_extend_24(0xAB00_0001), 1);
    assert_eq!(sign_extend_24(0x12FF_FFFE), -2);
}

#[test]
fn sign_extend_20_values() {
    assert_eq!(sign_extend_20(0x7_FFFF), 524_287);
    assert_eq!(sign_extend_20(0x8_0000), -524_288);
    assert_eq!(sign_extend_20(0xF_FFFF), -1);
    assert_eq!(sign_extend_20(0xFFF0_0005), 5);
}

#[test]
fn sign_extension_roundtrip_on_values() {
    for x in [-8_388_608i32, -1, 0, 1, 12_345, 8_388_607] {
        let packed = (x as u32) & 0xFF_FFFF;
        assert_eq!(sign_extend_24(packed), x);
    }
    for x in [-524_288i32, -7, 0, 524_287] {
        let packed = (x as u32) & 0xF_FFFF;
        assert_eq!(sign_extend_20(packed), x);
    }
}

#[test]
fn calibration_unpacking() {
    let b: [u8; 18] = [
        0x12, 0x34, 0x56, // c0 = 0x123, c1 = 0x456
        0xFF, 0xFF, 0xF7, // c00 = 0xFFFFF (-1), c10 high nibble 7
        0x00, 0x01, // c10 = 0x70001 (458753)
        0x80, 0x00, // c01 = -32768
        0x7F, 0xFF, // c11 = 32767
        0xFF, 0xFE, // c20 = -2
        0x00, 0x05, // c21 = 5
        0x01, 0x00, // c30 = 256
    ];
    let cal = parse_calibration(&b);
    assert_eq!(
        cal,
        Calibration {
            c0: 0x123,
            c1: 0x456,
            c00: -1,
            c10: 0x70001,
            c01: -32768,
            c11: 32767,
            c20: -2,
            c21: 5,
            c30: 256,
        }
    );
}

#[test]
fn calibration_twelve_bit_fields_are_signed() {
    let mut b = [0u8; 18];
    b[0] = 0xFF;
    b[1] = 0xFF;
    b[2] = 0xFF;
    let cal = parse_calibration(&b);
    assert_eq!(cal.c0, -1);
    assert_eq!(cal.c1, -1);
    b[0] = 0x80;
    b[1] = 0x08;
    b[2] = 0x00;
    let cal = parse_calibration(&b);
    assert_eq!(cal.c0, -2048);
    assert_eq!(cal.c1, -2048);
    b[0] = 0x7F;
    b[1] = 0xF7;
    b[2] = 0xFF;
    let cal = parse_calibration(&b);
    assert_eq!(cal.c0, 2047);
    assert_eq!(cal.c1, 2047);
}

#[test]
fn calibration_negative_c10() {
    let mut b = [0u8; 18];
    b[5] = 0x08;
    let cal = parse_calibration(&b);
    assert_eq!(cal.c10, -524_288);
    assert_eq!(cal.c00, 0);
}

#[test]
fn raw_sample_is_24_bit_twos_complement() {
    assert_eq!(raw_sample([0x12, 0x34, 0x56]), 0x12_3456);
    assert_eq!(raw_sample([0xFF, 0xFF, 0xFF]), -1);
    assert_eq!(raw_sample([0x80, 0x00, 0x00]), -8_388_608);
    assert_eq!(raw_sample([0x7F, 0xFF, 0xFF]), 8_388_607);
    assert_eq!(raw_sample([0, 0, 0x99]), 0x99);
}

#[test]
fn dht11_accepts_valid_frame() {
    // 45 % humidity, 23 degrees, checksum 45 + 0 + 23 + 0 = 68.
    assert_eq!(
        decode_frame([45, 0, 23, 0, 68]),
        Some(Dht11Reading { temperature: 23, humidity: 45 })
    );
}

#[test]
fn dht11_negative_temperature() {
    // Sign bit set: -5 degrees; checksum (30 + 0 + 0x85 + 0) % 256 = 163.
    assert_eq!(
        decode_frame([30, 0, 0x85, 0, 163]),
        Some(Dht11Reading { temperature: -5, humidity: 30 })
    );
    assert_eq!(
        decode_frame([0, 0, 0xFF, 0, 0xFF]),
        Some(Dht11Reading { temperature: -127, humidity: 0 })
    );
}

#[test]
fn dht11_checksum_wraps() {
    // 200 + 100 + 10 + 5 = 315, modulo 256 = 59.
    assert_eq!(
        decode_frame([200, 100, 10, 5, 59]),
        Some(Dht11Reading { temperature: 10, humidity: 200 })
    );
}

#[test]
fn dht11_rejects_bad_checksum() {
    assert_eq!(decode_frame([45, 0, 23, 0, 67]), None);
    assert_eq!(decode_frame([200, 100, 10, 5, 60]), None);
}

#[test]
fn dht11_bits_are_recorded_msb_first() {
    let mut frame = [0u8; 5];
    record_bit(&mut frame, 0, 0);
    assert_eq!(frame, [0x80, 0, 0, 0, 0]);
    record_bit(&mut frame, 0, 7);
    assert_eq!(frame, [0x81, 0, 0, 0, 0]);
    record_bit(&mut frame, 4, 3);
    assert_eq!(frame, [0x81, 0, 0, 0, 0x10]);
    record_bit(&mut frame, 4, 3);
    assert_eq!(frame, [0x81, 0, 0, 0, 0x10]);
}

#[test]
fn light_level_values() {
    assert_eq!(light_level(0), 0);
    assert_eq!(light_level(25), 0);
    assert_eq!(light_level(26), 1);
    assert_eq!(light_level(2600), 100);
    assert_eq!(light_level(4095), 157);
    assert_eq!(light_level(6656), 255);
    assert_eq!(light_level(u16::MAX), 255);
}

#[test]
fn light_level_matches_float_division_everywhere() {
    for raw in 0..=u16::MAX {
        let float_level = (raw as f32 / 26.) as u8;
        assert_eq!(light_level(raw), float_level, "raw reading {}", raw);
    }
}
