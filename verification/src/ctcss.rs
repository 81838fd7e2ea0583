//! CTCSS tones and the two bytes the radio stores for each.
use vstd::prelude::*;

verus! {

/// A CTCSS tone, named by its frequency in tenths of a hertz.
#[derive(Debug, PartialEq, Eq, Structural)]
pub enum Ctcss {
    Ctcss670,
    Ctcss693,
    Ctcss719,
    Ctcss744,
    Ctcss770,
    Ctcss797,
    Ctcss825,
    Ctcss854,
    Ctcss885,
    Ctcss915,
    Ctcss948,
    Ctcss974,
    Ctcss1000,
    Ctcss1035,
    Ctcss1072,
    Ctcss1109,
    Ctcss1148,
    Ctcss1188,
    Ctcss1230,
    Ctcss1273,
    Ctcss1318,
    Ctcss1365,
    Ctcss1413,
    Ctcss1462,
    Ctcss1514,
    Ctcss1567,
    Ctcss1598,
    Ctcss1622,
    Ctcss1655,
    Ctcss1679,
    Ctcss1713,
    Ctcss1738,
    Ctcss1773,
    Ctcss1799,
    Ctcss1835,
    Ctcss1862,
    Ctcss1899,
    Ctcss1928,
    Ctcss1966,
    Ctcss1995,
    Ctcss2035,
    Ctcss2065,
    Ctcss2107,
    Ctcss2181,
    Ctcss2257,
    Ctcss2291,
    Ctcss2336,
    Ctcss2418,
    Ctcss2503,
    Ctcss2541,
}

impl Ctcss {
    /// The two bytes the radio stores for this code.
    pub open spec fn code(self) -> (u8, u8) {
        match self {
            Ctcss::Ctcss670 => (0x70, 0x06),
            Ctcss::Ctcss693 => (0x93, 0x06),
            Ctcss::Ctcss719 => (0x19, 0x07),
            Ctcss::Ctcss744 => (0x44, 0x07),
            Ctcss::Ctcss770 => (0x70, 0x07),
            Ctcss::Ctcss797 => (0x97, 0x07),
            Ctcss::Ctcss825 => (0x25, 0x08),
            Ctcss::Ctcss854 => (0x54, 0x08),
            Ctcss::Ctcss885 => (0x85, 0x08),
            Ctcss::Ctcss915 => (0x15, 0x09),
            Ctcss::Ctcss948 => (0x48, 0x09),
            Ctcss::Ctcss974 => (0x74, 0x09),
            Ctcss::Ctcss1000 => (0x00, 0x10),
            Ctcss::Ctcss1035 => (0x35, 0x10),
            Ctcss::Ctcss1072 => (0x72, 0x10),
            Ctcss::Ctcss1109 => (0x09, 0x11),
            Ctcss::Ctcss1148 => (0x48, 0x11),
            Ctcss::Ctcss1188 => (0x88, 0x11),
            Ctcss::Ctcss1230 => (0x30, 0x12),
            Ctcss::Ctcss1273 => (0x73, 0x12),
            Ctcss::Ctcss1318 => (0x18, 0x13),
            Ctcss::Ctcss1365 => (0x65, 0x13),
            Ctcss::Ctcss1413 => (0x13, 0x14),
            Ctcss::Ctcss1462 => (0x62, 0x14),
            Ctcss::Ctcss1514 => (0x14, 0x15),
            Ctcss::Ctcss1567 => (0x67, 0x15),
            Ctcss::Ctcss1598 => (0x98, 0x15),
            Ctcss::Ctcss1622 => (0x22, 0x16),
            Ctcss::Ctcss1655 => (0x55, 0x16),
            Ctcss::Ctcss1679 => (0x79, 0x16),
            Ctcss::Ctcss1713 => (0x13, 0x17),
            Ctcss::Ctcss1738 => (0x38, 0x17),
            Ctcss::Ctcss1773 => (0x73, 0x17),
            Ctcss::Ctcss1799 => (0x99, 0x17),
            Ctcss::Ctcss1835 => (0x35, 0x18),
            Ctcss::Ctcss1862 => (0x62, 0x18),
            Ctcss::Ctcss1899 => (0x99, 0x18),
            Ctcss::Ctcss1928 => (0x28, 0x19),
            Ctcss::Ctcss1966 => (0x66, 0x19),
            Ctcss::Ctcss1995 => (0x95, 0x19),
            Ctcss::Ctcss2035 => (0x35, 0x20),
            Ctcss::Ctcss2065 => (0x65, 0x20),
            Ctcss::Ctcss2107 => (0x07, 0x21),
            Ctcss::Ctcss2181 => (0x81, 0x21),
            Ctcss::Ctcss2257 => (0x57, 0x22),
            Ctcss::Ctcss2291 => (0x91, 0x22),
            Ctcss::Ctcss2336 => (0x36, 0x23),
            Ctcss::Ctcss2418 => (0x18, 0x24),
            Ctcss::Ctcss2503 => (0x03, 0x25),
            Ctcss::Ctcss2541 => (0x41, 0x25),
        }
    }

    /// The code that two stored bytes name, if any.
    pub open spec fn from_code(first: u8, second: u8) -> Option<Ctcss> {
        match (first, second) {
            (0x70u8, 0x06u8) => Some(Ctcss::Ctcss670),
            (0x93u8, 0x06u8) => Some(Ctcss::Ctcss693),
            (0x19u8, 0x07u8) => Some(Ctcss::Ctcss719),
            (0x44u8, 0x07u8) => Some(Ctcss::Ctcss744),
            (0x70u8, 0x07u8) => Some(Ctcss::Ctcss770),
            (0x97u8, 0x07u8) => Some(Ctcss::Ctcss797),
            (0x25u8, 0x08u8) => Some(Ctcss::Ctcss825),
            (0x54u8, 0x08u8) => Some(Ctcss::Ctcss854),
            (0x85u8, 0x08u8) => Some(Ctcss::Ctcss885),
            (0x15u8, 0x09u8) => Some(Ctcss::Ctcss915),
            (0x48u8, 0x09u8) => Some(Ctcss::Ctcss948),
            (0x74u8, 0x09u8) => Some(Ctcss::Ctcss974),
            (0x00u8, 0x10u8) => Some(Ctcss::Ctcss1000),
            (0x35u8, 0x10u8) => Some(Ctcss::Ctcss1035),
            (0x72u8, 0x10u8) => Some(Ctcss::Ctcss1072),
            (0x09u8, 0x11u8) => Some(Ctcss::Ctcss1109),
            (0x48u8, 0x11u8) => Some(Ctcss::Ctcss1148),
            (0x88u8, 0x11u8) => Some(Ctcss::Ctcss1188),
            (0x30u8, 0x12u8) => Some(Ctcss::Ctcss1230),
            (0x73u8, 0x12u8) => Some(Ctcss::Ctcss1273),
            (0x18u8, 0x13u8) => Some(Ctcss::Ctcss1318),
            (0x65u8, 0x13u8) => Some(Ctcss::Ctcss1365),
            (0x13u8, 0x14u8) => Some(Ctcss::Ctcss1413),
            (0x62u8, 0x14u8) => Some(Ctcss::Ctcss1462),
            (0x14u8, 0x15u8) => Some(Ctcss::Ctcss1514),
            (0x67u8, 0x15u8) => Some(Ctcss::Ctcss1567),
            (0x98u8, 0x15u8) => Some(Ctcss::Ctcss1598),
            (0x22u8, 0x16u8) => Some(Ctcss::Ctcss1622),
            (0x55u8, 0x16u8) => Some(Ctcss::Ctcss1655),
            (0x79u8, 0x16u8) => Some(Ctcss::Ctcss1679),
            (0x13u8, 0x17u8) => Some(Ctcss::Ctcss1713),
            (0x38u8, 0x17u8) => Some(Ctcss::Ctcss1738),
            (0x73u8, 0x17u8) => Some(Ctcss::Ctcss1773),
            (0x99u8, 0x17u8) => Some(Ctcss::Ctcss1799),
            (0x35u8, 0x18u8) => Some(Ctcss::Ctcss1835),
            (0x62u8, 0x18u8) => Some(Ctcss::Ctcss1862),
            (0x99u8, 0x18u8) => Some(Ctcss::Ctcss1899),
            (0x28u8, 0x19u8) => Some(Ctcss::Ctcss1928),
            (0x66u8, 0x19u8) => Some(Ctcss::Ctcss1966),
            (0x95u8, 0x19u8) => Some(Ctcss::Ctcss1995),
            (0x35u8, 0x20u8) => Some(Ctcss::Ctcss2035),
            (0x65u8, 0x20u8) => Some(Ctcss::Ctcss2065),
            (0x07u8, 0x21u8) => Some(Ctcss::Ctcss2107),
            (0x81u8, 0x21u8) => Some(Ctcss::Ctcss2181),
            (0x57u8, 0x22u8) => Some(Ctcss::Ctcss2257),
            (0x91u8, 0x22u8) => Some(Ctcss::Ctcss2291),
            (0x36u8, 0x23u8) => Some(Ctcss::Ctcss2336),
            (0x18u8, 0x24u8) => Some(Ctcss::Ctcss2418),
            (0x03u8, 0x25u8) => Some(Ctcss::Ctcss2503),
            (0x41u8, 0x25u8) => Some(Ctcss::Ctcss2541),
            _ => None,
        }
    }

    /// What decoding a slice gives: two bytes that name a code, or an error.
    pub open spec fn decode(bytes: Seq<u8>) -> Result<Ctcss, ()> {
        if bytes.len() == 2 {
            match Ctcss::from_code(bytes[0], bytes[1]) {
                Some(code) => Ok(code),
                None => Err(()),
            }
        } else {
            Err(())
        }
    }

    /// The two bytes the radio stores for this code.
    pub fn to_bytes(&self) -> (bytes: Vec<u8>)
        ensures
            bytes@ == seq![self.code().0, self.code().1],
    {
        let bytes: Vec<u8> = match self {
            Ctcss::Ctcss670 => vec![0x70, 0x06],
            Ctcss::Ctcss693 => vec![0x93, 0x06],
            Ctcss::Ctcss719 => vec![0x19, 0x07],
            Ctcss::Ctcss744 => vec![0x44, 0x07],
            Ctcss::Ctcss770 => vec![0x70, 0x07],
            Ctcss::Ctcss797 => vec![0x97, 0x07],
            Ctcss::Ctcss825 => vec![0x25, 0x08],
            Ctcss::Ctcss854 => vec![0x54, 0x08],
            Ctcss::Ctcss885 => vec![0x85, 0x08],
            Ctcss::Ctcss915 => vec![0x15, 0x09],
            Ctcss::Ctcss948 => vec![0x48, 0x09],
            Ctcss::Ctcss974 => vec![0x74, 0x09],
            Ctcss::Ctcss1000 => vec![0x00, 0x10],
            Ctcss::Ctcss1035 => vec![0x35, 0x10],
            Ctcss::Ctcss1072 => vec![0x72, 0x10],
            Ctcss::Ctcss1109 => vec![0x09, 0x11],
            Ctcss::Ctcss1148 => vec![0x48, 0x11],
            Ctcss::Ctcss1188 => vec![0x88, 0x11],
            Ctcss::Ctcss1230 => vec![0x30, 0x12],
            Ctcss::Ctcss1273 => vec![0x73, 0x12],
            Ctcss::Ctcss1318 => vec![0x18, 0x13],
            Ctcss::Ctcss1365 => vec![0x65, 0x13],
            Ctcss::Ctcss1413 => vec![0x13, 0x14],
            Ctcss::Ctcss1462 => vec![0x62, 0x14],
            Ctcss::Ctcss1514 => vec![0x14, 0x15],
            Ctcss::Ctcss1567 => vec![0x67, 0x15],
            Ctcss::Ctcss1598 => vec![0x98, 0x15],
            Ctcss::Ctcss1622 => vec![0x22, 0x16],
            Ctcss::Ctcss1655 => vec![0x55, 0x16],
            Ctcss::Ctcss1679 => vec![0x79, 0x16],
            Ctcss::Ctcss1713 => vec![0x13, 0x17],
            Ctcss::Ctcss1738 => vec![0x38, 0x17],
            Ctcss::Ctcss1773 => vec![0x73, 0x17],
            Ctcss::Ctcss1799 => vec![0x99, 0x17],
            Ctcss::Ctcss1835 => vec![0x35, 0x18],
            Ctcss::Ctcss1862 => vec![0x62, 0x18],
            Ctcss::Ctcss1899 => vec![0x99, 0x18],
            Ctcss::Ctcss1928 => vec![0x28, 0x19],
            Ctcss::Ctcss1966 => vec![0x66, 0x19],
            Ctcss::Ctcss1995 => vec![0x95, 0x19],
            Ctcss::Ctcss2035 => vec![0x35, 0x20],
            Ctcss::Ctcss2065 => vec![0x65, 0x20],
            Ctcss::Ctcss2107 => vec![0x07, 0x21],
            Ctcss::Ctcss2181 => vec![0x81, 0x21],
            Ctcss::Ctcss2257 => vec![0x57, 0x22],
            Ctcss::Ctcss2291 => vec![0x91, 0x22],
            Ctcss::Ctcss2336 => vec![0x36, 0x23],
            Ctcss::Ctcss2418 => vec![0x18, 0x24],
            Ctcss::Ctcss2503 => vec![0x03, 0x25],
            Ctcss::Ctcss2541 => vec![0x41, 0x25],
        };
        assert(bytes@ =~= seq![self.code().0, self.code().1]);
        bytes
    }
}

impl TryFrom<&[u8]> for Ctcss {
    type Error = ();

    fn try_from(value: &[u8]) -> (result: Result<Self, Self::Error>)
        ensures
            result == Ctcss::decode(value@),
    {
        if value.len() != 2 {
            return Err(());
        }
        match (value[0], value[1]) {
            (0x70, 0x06) => Ok(Ctcss::Ctcss670),
            (0x93, 0x06) => Ok(Ctcss::Ctcss693),
            (0x19, 0x07) => Ok(Ctcss::Ctcss719),
            (0x44, 0x07) => Ok(Ctcss::Ctcss744),
            (0x70, 0x07) => Ok(Ctcss::Ctcss770),
            (0x97, 0x07) => Ok(Ctcss::Ctcss797),
            (0x25, 0x08) => Ok(Ctcss::Ctcss825),
            (0x54, 0x08) => Ok(Ctcss::Ctcss854),
            (0x85, 0x08) => Ok(Ctcss::Ctcss885),
            (0x15, 0x09) => Ok(Ctcss::Ctcss915),
            (0x48, 0x09) => Ok(Ctcss::Ctcss948),
            (0x74, 0x09) => Ok(Ctcss::Ctcss974),
            (0x00, 0x10) => Ok(Ctcss::Ctcss1000),
            (0x35, 0x10) => Ok(Ctcss::Ctcss1035),
            (0x72, 0x10) => Ok(Ctcss::Ctcss1072),
            (0x09, 0x11) => Ok(Ctcss::Ctcss1109),
            (0x48, 0x11) => Ok(Ctcss::Ctcss1148),
            (0x88, 0x11) => Ok(Ctcss::Ctcss1188),
            (0x30, 0x12) => Ok(Ctcss::Ctcss1230),
            (0x73, 0x12) => Ok(Ctcss::Ctcss1273),
            (0x18, 0x13) => Ok(Ctcss::Ctcss1318),
            (0x65, 0x13) => Ok(Ctcss::Ctcss1365),
            (0x13, 0x14) => Ok(Ctcss::Ctcss1413),
            (0x62, 0x14) => Ok(Ctcss::Ctcss1462),
            (0x14, 0x15) => Ok(Ctcss::Ctcss1514),
            (0x67, 0x15) => Ok(Ctcss::Ctcss1567),
            (0x98, 0x15) => Ok(Ctcss::Ctcss1598),
            (0x22, 0x16) => Ok(Ctcss::Ctcss1622),
            (0x55, 0x16) => Ok(Ctcss::Ctcss1655),
            (0x79, 0x16) => Ok(Ctcss::Ctcss1679),
            (0x13, 0x17) => Ok(Ctcss::Ctcss1713),
            (0x38, 0x17) => Ok(Ctcss::Ctcss1738),
            (0x73, 0x17) => Ok(Ctcss::Ctcss1773),
            (0x99, 0x17) => Ok(Ctcss::Ctcss1799),
            (0x35, 0x18) => Ok(Ctcss::Ctcss1835),
            (0x62, 0x18) => Ok(Ctcss::Ctcss1862),
            (0x99, 0x18) => Ok(Ctcss::Ctcss1899),
            (0x28, 0x19) => Ok(Ctcss::Ctcss1928),
            (0x66, 0x19) => Ok(Ctcss::Ctcss1966),
            (0x95, 0x19) => Ok(Ctcss::Ctcss1995),
            (0x35, 0x20) => Ok(Ctcss::Ctcss2035),
            (0x65, 0x20) => Ok(Ctcss::Ctcss2065),
            (0x07, 0x21) => Ok(Ctcss::Ctcss2107),
            (0x81, 0x21) => Ok(Ctcss::Ctcss2181),
            (0x57, 0x22) => Ok(Ctcss::Ctcss2257),
            (0x91, 0x22) => Ok(Ctcss::Ctcss2291),
            (0x36, 0x23) => Ok(Ctcss::Ctcss2336),
            (0x18, 0x24) => Ok(Ctcss::Ctcss2418),
            (0x03, 0x25) => Ok(Ctcss::Ctcss2503),
            (0x41, 0x25) => Ok(Ctcss::Ctcss2541),
            _ => Err(()),
        }
    }
}

impl vstd::std_specs::convert::TryFromSpecImpl<&[u8]> for Ctcss {
    open spec fn obeys_try_from_spec() -> bool {
        true
    }

    open spec fn try_from_spec(value: &[u8]) -> Result<Self, ()> {
        Ctcss::decode(value@)
    }
}

/// Decoding the bytes stored for a code gives that code back. The bytes are never
/// `ff ff`, and the high bit of the second byte is clear.
pub proof fn lemma_ctcss_code_round_trip(code: Ctcss)
    ensures
        Ctcss::from_code(code.code().0, code.code().1) == Some(code),
        code.code().1 < 0x80,
        code.code() != (0xffu8, 0xffu8),
{
}

/// Two bytes that name a code are the bytes stored for it.
pub proof fn lemma_ctcss_bytes_round_trip(first: u8, second: u8)
    requires
        Ctcss::from_code(first, second) is Some,
    ensures
        Ctcss::from_code(first, second).unwrap().code() == (first, second),
{
}

/// A tone's frequency in tenths of a hertz, as its name says.
pub open spec fn tone_tenths(tone: Ctcss) -> nat {
    match tone {
            Ctcss::Ctcss670 => 670,
            Ctcss::Ctcss693 => 693,
            Ctcss::Ctcss719 => 719,
            Ctcss::Ctcss744 => 744,
            Ctcss::Ctcss770 => 770,
            Ctcss::Ctcss797 => 797,
            Ctcss::Ctcss825 => 825,
            Ctcss::Ctcss854 => 854,
            Ctcss::Ctcss885 => 885,
            Ctcss::Ctcss915 => 915,
            Ctcss::Ctcss948 => 948,
            Ctcss::Ctcss974 => 974,
            Ctcss::Ctcss1000 => 1000,
            Ctcss::Ctcss1035 => 1035,
            Ctcss::Ctcss1072 => 1072,
            Ctcss::Ctcss1109 => 1109,
            Ctcss::Ctcss1148 => 1148,
            Ctcss::Ctcss1188 => 1188,
            Ctcss::Ctcss1230 => 1230,
            Ctcss::Ctcss1273 => 1273,
            Ctcss::Ctcss1318 => 1318,
            Ctcss::Ctcss1365 => 1365,
            Ctcss::Ctcss1413 => 1413,
            Ctcss::Ctcss1462 => 1462,
            Ctcss::Ctcss1514 => 1514,
            Ctcss::Ctcss1567 => 1567,
            Ctcss::Ctcss1598 => 1598,
            Ctcss::Ctcss1622 => 1622,
            Ctcss::Ctcss1655 => 1655,
            Ctcss::Ctcss1679 => 1679,
            Ctcss::Ctcss1713 => 1713,
            Ctcss::Ctcss1738 => 1738,
            Ctcss::Ctcss1773 => 1773,
            Ctcss::Ctcss1799 => 1799,
            Ctcss::Ctcss1835 => 1835,
            Ctcss::Ctcss1862 => 1862,
            Ctcss::Ctcss1899 => 1899,
            Ctcss::Ctcss1928 => 1928,
            Ctcss::Ctcss1966 => 1966,
            Ctcss::Ctcss1995 => 1995,
            Ctcss::Ctcss2035 => 2035,
            Ctcss::Ctcss2065 => 2065,
            Ctcss::Ctcss2107 => 2107,
            Ctcss::Ctcss2181 => 2181,
            Ctcss::Ctcss2257 => 2257,
            Ctcss::Ctcss2291 => 2291,
            Ctcss::Ctcss2336 => 2336,
            Ctcss::Ctcss2418 => 2418,
            Ctcss::Ctcss2503 => 2503,
            Ctcss::Ctcss2541 => 2541,
    }
}

/// Two binary coded decimal digits: the tens in the high nibble, the units in the low.
pub open spec fn bcd(value: nat) -> u8 {
    ((value / 10) * 16 + value % 10) as u8
}

/// The radio stores a tone as its frequency in tenths of a hertz, in binary coded
/// decimal, little endian: the last two digits first, then the first two.
pub proof fn lemma_ctcss_code_is_bcd(tone: Ctcss)
    ensures
        tone.code() == (bcd(tone_tenths(tone) % 100), bcd(tone_tenths(tone) / 100)),
        670 <= tone_tenths(tone) <= 2541,
{
}

} // verus!
