use tetra_sds::lip::{decode_lip_short_location, format_position, read_bits_msb, sign_extend};

fn degrees(steps: i32) -> f64 {
    steps as f64 * (180.0 / (1u64 << 24) as f64)
}

#[test]
fn decodes_etsi_short_location_example() {
    // ETSI example: E25.739014, N62.232699. The final half-octet is zero padded.
    let payload = [0x0A, 0x01, 0x24, 0xDA, 0x52, 0xC4, 0x11, 0xE2, 0x00, 0x02, 0x00];
    let (latitude_steps, longitude_steps) = decode_lip_short_location(&payload).expect("valid short LIP report");
    let latitude = latitude_steps as f64 * (180.0 / (1u64 << 24) as f64);
    let longitude = longitude_steps as f64 * (360.0 / (1u64 << 25) as f64);
    assert!((latitude - 62.232699).abs() < 0.000001);
    assert!((longitude - 25.739014).abs() < 0.000001);
}

#[test]
fn rejects_non_short_and_truncated_lip() {
    assert_eq!(decode_lip_short_location(&[0x0A, 0x40, 0, 0, 0, 0, 0, 0]), None);
    assert_eq!(decode_lip_short_location(&[0x0A, 0x00]), None);
}

#[test]
fn rejects_other_protocols_and_seven_octets() {
    assert_eq!(decode_lip_short_location(&[0x0B, 0, 0, 0, 0, 0, 0, 0]), None);
    assert_eq!(decode_lip_short_location(&[0x0A, 0, 0, 0, 0, 0, 0]), None);
    assert_eq!(decode_lip_short_location(&[]), None);
    assert_eq!(decode_lip_short_location(&[0x0A, 0, 0, 0, 0, 0, 0, 0]), Some((0, 0)));
}

#[test]
fn negative_coordinates_decode() {
    // All coordinate bits set: one step below zero in both directions.
    assert_eq!(
        decode_lip_short_location(&[0x0A, 0x0F, 0xFF, 0xFF, 0xFF, 0xFF, 0xFF, 0xF8]),
        Some((-1, -1))
    );
}

#[test]
fn bits_are_read_most_significant_first() {
    let data = [0b1010_0101, 0b1100_0011];
    assert_eq!(read_bits_msb(&data, 0, 4), Some(0b1010));
    assert_eq!(read_bits_msb(&data, 4, 8), Some(0b0101_1100));
    assert_eq!(read_bits_msb(&data, 0, 16), Some(0xA5C3));
    assert_eq!(read_bits_msb(&data, 16, 0), Some(0));
    assert_eq!(read_bits_msb(&[0xFF; 8], 3, 32), Some(0xFFFF_FFFF));
}

#[test]
fn bit_fields_out_of_range_are_refused() {
    let data = [0u8; 8];
    assert_eq!(read_bits_msb(&data, 0, 33), None);
    assert_eq!(read_bits_msb(&data, 33, 32), None);
    assert_eq!(read_bits_msb(&data, 32, 32), Some(0));
    assert_eq!(read_bits_msb(&data, usize::MAX, 2), None);
    assert_eq!(read_bits_msb(&data, usize::MAX - 1, 1), None);
}

#[test]
fn adjacent_fields_join() {
    let data = [0x0A, 0x01, 0x24, 0xDA, 0x52];
    let joined = read_bits_msb(&data, 5, 20).unwrap();
    let high = read_bits_msb(&data, 5, 7).unwrap();
    let low = read_bits_msb(&data, 12, 13).unwrap();
    assert_eq!(joined, (high << 13) + low);
}

#[test]
fn sign_extension_is_twos_complement() {
    assert_eq!(sign_extend(0x7F_FFFF, 24), 8_388_607);
    assert_eq!(sign_extend(0x80_0000, 24), -8_388_608);
    assert_eq!(sign_extend(0xFF_FFFF, 24), -1);
    assert_eq!(sign_extend(1, 1), -1);
    assert_eq!(sign_extend(0xFFFF_FFFF, 32), -1);
    assert_eq!(sign_extend(0xFF00_0001, 24), 1);
    for width in 1..=32u32 {
        for value in [0u32, 1, 2, 0x1234_5678, 0x8000_0000, 0xFFFF_FFFF, 0x0055_AA55] {
            assert_eq!(sign_extend(value, width), ((value << (32 - width)) as i32) >> (32 - width));
        }
    }
}

#[test]
fn position_is_written_like_the_float() {
    let mut steps: Vec<i32> = vec![0, 1, -1, 2, 3, -3, 8_388_607, -8_388_608, 16_777_215, -16_777_216];
    // Odd multiples of 2^15 lie half-way between two written values.
    let mut k = -511;
    while k <= 511 {
        steps.push(k * 32_768);
        k += 2;
    }
    let mut x: u32 = 12_345;
    for _ in 0..20_000 {
        x = x.wrapping_mul(1_664_525).wrapping_add(1_013_904_223);
        steps.push(((x >> 7) as i32) - 16_777_216);
    }
    for s in steps {
        let expected = format!("LIP position: {:.6}, {:.6}", degrees(s), degrees(-s));
        // Negating zero would give the float a sign that a coordinate never has.
        if s != 0 {
            assert_eq!(format_position(s, -s), expected);
        }
    }
    assert_eq!(format_position(0, 0), "LIP position: 0.000000, 0.000000");
}

#[test]
fn position_ties_go_to_even() {
    assert_eq!(format_position(32_768, 98_304), "LIP position: 0.351562, 1.054688");
}
