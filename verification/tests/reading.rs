use aht10::reading::{decode, FRAME_LEN, RAW_LIMIT, RAW_SENTINEL};
use aht10::{Humidity, Temperature};

/// Lays two twenty-bit values out in a response frame, as the sensor does.
fn encode(status: u8, humidity: u32, temperature: u32) -> [u8; 6] {
    assert!(humidity < RAW_LIMIT && temperature < RAW_LIMIT);
    [
        status,
        (humidity >> 12) as u8,
        (humidity >> 4) as u8,
        (((humidity & 0x0F) << 4) | (temperature >> 16)) as u8,
        (temperature >> 8) as u8,
        temperature as u8,
    ]
}

fn raw_pair(frame: &[u8; 6]) -> (u32, u32) {
    let (humidity, temperature) = decode(frame);
    (humidity.raw(), temperature.raw())
}

#[test]
fn frame_has_six_bytes() {
    assert_eq!(FRAME_LEN, 6);
    assert_eq!(RAW_LIMIT, 1 << 20);
}

#[test]
fn decode_splits_the_sample_frame() {
    let frame = [0x18, 0x12, 0x34, 0x56, 0x78, 0x9A];
    let (humidity, temperature) = decode(&frame);
    assert_eq!(humidity.raw(), (0x12 << 12) | (0x34 << 4) | (0x56 >> 4));
    assert_eq!(temperature.raw(), ((0x56 & 0x0F) << 16) | (0x78 << 8) | 0x9A);
    assert_eq!(humidity.raw(), 0x12345);
    assert_eq!(temperature.raw(), 0x6789A);
}

#[test]
fn decode_recovers_encoded_values() {
    let samples: [u32; 9] =
        [0, 1, 0x0F, 0x10, 0x0FFF, 0x1000, 0x5A5A5, 0xA5A5A, 0xFFFFF];
    for &humidity in samples.iter() {
        for &temperature in samples.iter() {
            let frame = encode(0x1C, humidity, temperature);
            assert_eq!(raw_pair(&frame), (humidity, temperature));
        }
    }
}

#[test]
fn decode_recovers_every_single_bit() {
    for bit in 0..20 {
        let value: u32 = 1 << bit;
        assert_eq!(raw_pair(&encode(0, value, 0)), (value, 0));
        assert_eq!(raw_pair(&encode(0, 0, value)), (0, value));
    }
}

#[test]
fn full_humidity_does_not_bleed_into_temperature() {
    let frame = encode(0x00, 0xFFFFF, 0);
    assert_eq!(frame, [0x00, 0xFF, 0xFF, 0xF0, 0x00, 0x00]);
    assert_eq!(raw_pair(&frame), (0xFFFFF, 0));
}

#[test]
fn full_temperature_does_not_bleed_into_humidity() {
    let frame = encode(0x00, 0, 0xFFFFF);
    assert_eq!(frame, [0x00, 0x00, 0x00, 0x0F, 0xFF, 0xFF]);
    assert_eq!(raw_pair(&frame), (0, 0xFFFFF));
}

#[test]
fn shared_byte_is_split_by_nibble() {
    assert_eq!(raw_pair(&[0, 0, 0, 0xA5, 0, 0]), (0x0000A, 0x50000));
    assert_eq!(raw_pair(&[0, 0, 0, 0x5A, 0, 0]), (0x00005, 0xA0000));
}

#[test]
fn decode_ignores_the_status_byte() {
    let data = [0x12, 0x34, 0x56, 0x78, 0x9A];
    for status in [0x00u8, 0x08, 0x18, 0x80, 0xFF] {
        let frame = [status, data[0], data[1], data[2], data[3], data[4]];
        assert_eq!(raw_pair(&frame), (0x12345, 0x6789A));
    }
}

#[test]
fn decoded_fields_fit_in_twenty_bits() {
    let (humidity, temperature) = raw_pair(&[0xFF; 6]);
    assert_eq!(humidity, 0xFFFFF);
    assert_eq!(temperature, 0xFFFFF);
    assert!(humidity < RAW_LIMIT && temperature < RAW_LIMIT);
    assert_eq!(raw_pair(&[0x00; 6]), (0, 0));
}

#[test]
fn humidity_wraps_any_raw_value() {
    assert_eq!(Humidity::from_raw(0).raw(), 0);
    assert_eq!(Humidity::from_raw(0x12345).raw(), 0x12345);
    assert_eq!(Humidity::from_raw(0xFFFFF).raw(), 0xFFFFF);
    assert_eq!(Humidity::from_raw(RAW_SENTINEL).raw(), 0xFFFF_FFFF);
}

#[test]
fn temperature_wraps_any_raw_value() {
    assert_eq!(Temperature::from_raw(0).raw(), 0);
    assert_eq!(Temperature::from_raw(0x6789A).raw(), 0x6789A);
    assert_eq!(Temperature::from_raw(0xFFFFF).raw(), 0xFFFFF);
    assert_eq!(Temperature::from_raw(RAW_SENTINEL).raw(), 0xFFFF_FFFF);
}

#[test]
fn readings_compare_by_raw_value() {
    assert_eq!(Humidity::from_raw(7), Humidity::from_raw(7));
    assert_ne!(Humidity::from_raw(7), Humidity::from_raw(8));
    assert_eq!(Temperature::from_raw(7), Temperature::from_raw(7));
    assert_ne!(Temperature::from_raw(7), Temperature::from_raw(8));
}
