//! Channel frequencies, counted in units of 10 Hz.
//!
//! The radio keeps a frequency in three bytes. Read little endian, they hold the
//! low 24 bits of the frequency; bit 25 is implied. So three bytes stand for one of
//! the frequencies from `0x0200_0000` up to, but not including, `0x0300_0000`.
use vstd::prelude::*;

verus! {

/// The frequency that three stored bytes stand for.
pub open spec fn frequency_value(bytes: Seq<u8>) -> int {
    0x0200_0000 + bytes[0] + 256 * bytes[1] + 65536 * bytes[2]
}

/// A frequency that three stored bytes can hold.
pub open spec fn is_storable_frequency(frequency: u32) -> bool {
    0x0200_0000 <= frequency < 0x0300_0000
}

/// The third byte that the encoder writes: bits 16 to 23 of the frequency, one less
/// (modulo 256) where the low 16 bits are below `0x5A00` and bits 16 to 31 lie
/// outside `0x101..=0x300`.
pub open spec fn third_frequency_byte(frequency: u32) -> u8 {
    let high = frequency >> 16u32;
    if (frequency & 0xffff) < 0x5A00 && !(0x101 <= high && high <= 0x300) {
        ((high as int + 255) % 256) as u8
    } else {
        high as u8
    }
}

/// The three bytes that the encoder writes for a frequency.
pub open spec fn frequency_bytes(frequency: u32) -> Seq<u8> {
    seq![frequency as u8, (frequency >> 8u32) as u8, third_frequency_byte(frequency)]
}

/// Decodes a stored frequency. A slice that is not three bytes long gives 0.
pub fn frequency_from_bytes(bytes: &[u8]) -> (frequency: u32)
    ensures
        bytes@.len() == 3 ==> frequency == frequency_value(bytes@),
        bytes@.len() == 3 ==> frequency == 0x0200_0000 + bytes@[0] + 256 * bytes@[1] + 65536
            * bytes@[2],
        bytes@.len() != 3 ==> frequency == 0,
{
    if bytes.len() != 3 {
        return 0;
    }
    let mut frequency: i64 = 40000000;
    frequency += bytes[0] as i64;
    frequency += (bytes[1] as i64 - 0x5A) * 256;
    frequency += (bytes[2] as i64 - 0x62) * 65536;
    frequency as u32
}

/// Encodes a frequency into the three bytes the radio stores.
///
/// A storable frequency gives the bytes that decode to it again; see
/// `lemma_frequency_round_trip`.
pub fn bytes_from_frequency(frequency: u32) -> (bytes: Vec<u8>)
    ensures
        bytes@ == frequency_bytes(frequency),
        bytes@.len() == 3,
        bytes@[0] == frequency % 256,
        bytes@[1] == frequency / 256 % 256,
        bytes@[2] == if frequency % 65536 < 0x5A00 && !(0x101 <= frequency / 65536 <= 0x300) {
            (frequency / 65536 + 255) % 256
        } else {
            (frequency / 65536 % 256) as int
        },
        is_storable_frequency(frequency) ==> 0x0200_0000 + bytes@[0] + 256 * bytes@[1] + 65536
            * bytes@[2] == frequency,
{
    proof {
        lemma_frequency_bytes_digits(frequency);
        if is_storable_frequency(frequency) {
            lemma_frequency_round_trip(frequency);
        }
    }
    let offset: i64 = frequency as i64 - 40000000;
    let b0: u8 = offset as u8;
    let b1: u8 = ((offset >> 8u64) as u8).wrapping_add(0x5A);
    let mut b2: u8 = ((offset >> 16u64) as u8).wrapping_add(0x62);
    proof {
        lemma_first_pass_bytes(frequency, offset);
        lemma_frequency_split(frequency);
    }
    let first_pass: Vec<u8> = vec![b0, b1, b2];
    let calculated = frequency_from_bytes(first_pass.as_slice());
    // The first pass can be one off in the third byte; the difference between the
    // requested and the decoded frequency tells by how much.
    let difference: i64 = frequency as i64 - calculated as i64;
    proof {
        lemma_first_pass_difference(frequency, b2, difference);
    }
    match difference {
        65536 => {
            b2 = b2.wrapping_add(1);
        },
        -16711680 => {
            b2 = b2.wrapping_add(1);
        },
        _ => {},
    }
    let bytes: Vec<u8> = vec![b0, b1, b2];
    assert(bytes@ =~= frequency_bytes(frequency));
    bytes
}

/// A frequency splits into its low 16 bits and bits 16 to 31, and its low 16 bits
/// into its two low bytes.
proof fn lemma_frequency_split(frequency: u32)
    ensures
        frequency == (frequency & 0xffff) + 65536 * (frequency >> 16u32),
        (frequency & 0xffff) == frequency as u8 + 256 * ((frequency >> 8u32) as u8),
        (frequency >> 16u32) < 65536,
        (frequency >> 16u32) as u8 == (frequency >> 16u32) % 256,
{
    assert(frequency == (frequency & 0xffff) + 65536 * (frequency >> 16u32)) by (bit_vector);
    assert((frequency & 0xffff) == frequency as u8 + 256 * ((frequency >> 8u32) as u8))
        by (bit_vector);
    assert((frequency >> 16u32) < 65536) by (bit_vector);
    assert((frequency >> 16u32) as u8 == (frequency >> 16u32) % 256) by (bit_vector);
}

/// How far the first pass of the encoder is off, and which third byte corrects it.
proof fn lemma_first_pass_difference(frequency: u32, first_third: u8, difference: i64)
    requires
        (frequency >> 16u32) < 65536,
        (frequency >> 16u32) as u8 == (frequency >> 16u32) % 256,
        first_third == if (frequency & 0xffff) < 0x5A00 {
            ((frequency >> 16u32) as u8).wrapping_sub(1)
        } else {
            (frequency >> 16u32) as u8
        },
        difference == 65536 * ((frequency >> 16u32) - 512 - first_third),
    ensures
        (difference == 65536 || difference == -16711680) ==> first_third.wrapping_add(1)
            == third_frequency_byte(frequency),
        !(difference == 65536 || difference == -16711680) ==> first_third
            == third_frequency_byte(frequency),
{
    let high = frequency >> 16u32;
    if (frequency & 0xffff) < 0x5A00 {
        if high == 0 {
            assert(first_third == 255);
        } else {
            assert(first_third == (high - 1) % 256);
        }
    } else {
        assert(first_third == high % 256);
    }
}

/// What the first arithmetic pass of the encoder gives: the first two bytes are the
/// low two bytes of the frequency; the third is bits 16 to 23, less one (modulo 256)
/// where the low 16 bits are below `0x5A00`.
proof fn lemma_first_pass_bytes(frequency: u32, offset: i64)
    requires
        offset == frequency - 40000000,
    ensures
        offset as u8 == frequency as u8,
        ((offset >> 8u64) as u8).wrapping_add(0x5A) == (frequency >> 8u32) as u8,
        ((offset >> 16u64) as u8).wrapping_add(0x62) == if (frequency & 0xffff) < 0x5A00 {
            ((frequency >> 16u32) as u8).wrapping_sub(1)
        } else {
            (frequency >> 16u32) as u8
        },
{
    assert(offset as u8 == frequency as u8) by (bit_vector)
        requires
            offset == frequency - 40000000,
    ;
    assert(((offset >> 8u64) as u8).wrapping_add(0x5A) == (frequency >> 8u32) as u8)
        by (bit_vector)
        requires
            offset == frequency - 40000000,
    ;
    assert(((offset >> 16u64) as u8).wrapping_add(0x62) == if (frequency & 0xffff) < 0x5A00 {
        ((frequency >> 16u32) as u8).wrapping_sub(1)
    } else {
        (frequency >> 16u32) as u8
    }) by (bit_vector)
        requires
            offset == frequency - 40000000,
    ;
}

/// The bytes written for a frequency, as digits base 256: the lowest two digits,
/// then the third digit, less one (modulo 256) where the low 16 bits are below
/// `0x5A00` and the frequency divided by 65536 lies outside `0x101..=0x300`.
pub proof fn lemma_frequency_bytes_digits(frequency: u32)
    ensures
        frequency_bytes(frequency).len() == 3,
        frequency_bytes(frequency)[0] == frequency % 256,
        frequency_bytes(frequency)[1] == frequency / 256 % 256,
        frequency_bytes(frequency)[2] == if frequency % 65536 < 0x5A00 && !(0x101
            <= frequency / 65536 <= 0x300) {
            (frequency / 65536 + 255) % 256
        } else {
            (frequency / 65536 % 256) as int
        },
{
    assert(frequency as u8 == frequency % 256 && (frequency >> 8u32) as u8 == frequency / 256
        % 256 && (frequency >> 16u32) as u8 == frequency / 65536 % 256 && frequency >> 16u32
        == frequency / 65536 && frequency & 0xffff == frequency % 65536) by (bit_vector);
}

/// Decoding what the encoder writes for a storable frequency gives that frequency back.
pub proof fn lemma_frequency_round_trip(frequency: u32)
    requires
        is_storable_frequency(frequency),
    ensures
        frequency_bytes(frequency).len() == 3,
        frequency_value(frequency_bytes(frequency)) == frequency,
{
    assert(0x200 <= (frequency >> 16u32) && (frequency >> 16u32) < 0x300) by (bit_vector)
        requires
            0x0200_0000 <= frequency < 0x0300_0000,
    ;
    assert(0x0200_0000 + (frequency as u8) + 256 * ((frequency >> 8u32) as u8) + 65536 * ((
    frequency >> 16u32) as u8) == frequency) by (bit_vector)
        requires
            0x0200_0000 <= frequency < 0x0300_0000,
    ;
}

/// Every three bytes stand for a storable frequency, and encoding that frequency
/// writes the same three bytes.
pub proof fn lemma_bytes_round_trip(bytes: Seq<u8>)
    requires
        bytes.len() == 3,
    ensures
        is_storable_frequency(frequency_value(bytes) as u32),
        frequency_value(bytes) as u32 == frequency_value(bytes),
        frequency_bytes(frequency_value(bytes) as u32) == bytes,
{
    let (b0, b1, b2) = (bytes[0], bytes[1], bytes[2]);
    let frequency = frequency_value(bytes) as u32;
    assert(frequency == 0x0200_0000 + b0 + 256 * b1 + 65536 * b2);
    assert({
        let f = (0x0200_0000 + b0 + 256 * b1 + 65536 * b2) as u32;
        &&& f as u8 == b0
        &&& (f >> 8u32) as u8 == b1
        &&& (f >> 16u32) as u8 == b2
        &&& 0x200 <= (f >> 16u32) && (f >> 16u32) < 0x300
    }) by (bit_vector);
    assert(frequency_bytes(frequency) =~= bytes);
}

} // verus!
