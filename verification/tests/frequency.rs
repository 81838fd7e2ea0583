use codeplug::frequency::{bytes_from_frequency, frequency_from_bytes};

#[test]
fn encodes_pmr_channel_one() {
    assert_eq!(bytes_from_frequency(44600625), vec![0x31, 0x8d, 0xa8]);
}

#[test]
fn encodes_frs_frequency() {
    assert_eq!(bytes_from_frequency(46256250), vec![0x7a, 0xd0, 0xc1]);
}

#[test]
fn encodes_offset_origin() {
    assert_eq!(bytes_from_frequency(40000000), vec![0x00, 0x5a, 0x62]);
}

#[test]
fn encodes_where_first_pass_is_one_off() {
    // Low 16 bits below 0x5A00: the first pass is off by 65536 and corrected.
    assert_eq!(bytes_from_frequency(0x0200_5900), vec![0x00, 0x59, 0x00]);
    assert_eq!(frequency_from_bytes(&[0x00, 0x59, 0x00]), 0x0200_5900);
}

#[test]
fn encodes_storable_range_edges() {
    assert_eq!(bytes_from_frequency(0x0200_0000), vec![0x00, 0x00, 0x00]);
    assert_eq!(bytes_from_frequency(0x02ff_ffff), vec![0xff, 0xff, 0xff]);
}

#[test]
fn encodes_frequencies_outside_storable_range() {
    assert_eq!(bytes_from_frequency(0), vec![0x00, 0x00, 0xff]);
    assert_eq!(bytes_from_frequency(0x0100_0000), vec![0x00, 0x00, 0xff]);
    assert_eq!(bytes_from_frequency(0x0101_0000), vec![0x00, 0x00, 0x01]);
    assert_eq!(bytes_from_frequency(0x0300_0000), vec![0x00, 0x00, 0x00]);
    assert_eq!(bytes_from_frequency(0x0301_0000), vec![0x00, 0x00, 0x00]);
    assert_eq!(bytes_from_frequency(u32::MAX), vec![0xff, 0xff, 0xff]);
}

#[test]
fn decodes_three_bytes() {
    assert_eq!(frequency_from_bytes(&[0x31, 0x8d, 0xa8]), 44600625);
    assert_eq!(frequency_from_bytes(&[0x00, 0x00, 0x00]), 0x0200_0000);
    assert_eq!(frequency_from_bytes(&[0xff, 0xff, 0xff]), 0x02ff_ffff);
    assert_eq!(frequency_from_bytes(&[0x00, 0x5a, 0x62]), 40000000);
}

#[test]
fn decodes_wrong_length_as_zero() {
    assert_eq!(frequency_from_bytes(&[]), 0);
    assert_eq!(frequency_from_bytes(&[0x31, 0x8d]), 0);
    assert_eq!(frequency_from_bytes(&[0x31, 0x8d, 0xa8, 0x00]), 0);
}

#[test]
fn storable_frequencies_round_trip() {
    let mut frequency: u32 = 0x0200_0000;
    while frequency < 0x0300_0000 {
        let bytes = bytes_from_frequency(frequency);
        assert_eq!(frequency_from_bytes(&bytes), frequency);
        frequency += 4099;
    }
    for frequency in [0x0200_0000u32, 0x0200_59ff, 0x0200_5a00, 0x02ff_ffff, 0x0210_0000] {
        assert_eq!(frequency_from_bytes(&bytes_from_frequency(frequency)), frequency);
    }
}

#[test]
fn stored_bytes_round_trip() {
    for first in [0u8, 1, 0x59, 0x5a, 0xfe, 0xff] {
        for second in [0u8, 0x59, 0x5a, 0x5b, 0xff] {
            for third in 0..=255u8 {
                let bytes = [first, second, third];
                assert_eq!(bytes_from_frequency(frequency_from_bytes(&bytes)), bytes.to_vec());
            }
        }
    }
}
