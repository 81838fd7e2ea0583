//! A channel as the radio stores it: eleven bytes holding the receive and transmit
//! frequencies, the receive and transmit tone squelch, and a byte of flags.
use vstd::prelude::*;

pub use crate::ctcss::Ctcss;
pub use crate::dcs::Dcs;
pub use crate::frequency::{bytes_from_frequency, frequency_from_bytes};

use crate::ctcss::{lemma_ctcss_bytes_round_trip, lemma_ctcss_code_round_trip};
use crate::dcs::{lemma_dcs_bytes_round_trip, lemma_dcs_code_round_trip};
use crate::frequency::{
    frequency_bytes, frequency_value, is_storable_frequency, lemma_bytes_round_trip,
    lemma_frequency_round_trip,
};

verus! {

/// The number of bytes the radio stores for one channel.
pub const CHANNEL_SIZE: usize = 11;

/// Tone squelch of one direction: a CTCSS tone, a DCS code, or none.
#[derive(Debug, PartialEq, Eq, Structural)]
pub enum CtcssDcs {
    Ctcss(Ctcss),
    Dcs(Dcs),
    Off,
}

impl CtcssDcs {
    /// The two bytes the radio stores; no tone is `ff ff`.
    pub open spec fn code(self) -> (u8, u8) {
        match self {
            CtcssDcs::Ctcss(tone) => tone.code(),
            CtcssDcs::Dcs(code) => code.code(),
            CtcssDcs::Off => (0xffu8, 0xffu8),
        }
    }

    /// The tone squelch that two stored bytes name, if any: `ff ff` is none; with the
    /// high bit of the second byte set they name a DCS code, else a CTCSS tone.
    pub open spec fn from_code(first: u8, second: u8) -> Option<CtcssDcs> {
        if first == 0xff && second == 0xff {
            Some(CtcssDcs::Off)
        } else if second & 0x80 == 0x80 {
            match Dcs::from_code(first, second) {
                Some(code) => Some(CtcssDcs::Dcs(code)),
                None => None,
            }
        } else {
            match Ctcss::from_code(first, second) {
                Some(tone) => Some(CtcssDcs::Ctcss(tone)),
                None => None,
            }
        }
    }

    /// What decoding a slice gives: two bytes that name a tone squelch, or an error.
    pub open spec fn decode(bytes: Seq<u8>) -> Result<CtcssDcs, ()> {
        if bytes.len() == 2 {
            match CtcssDcs::from_code(bytes[0], bytes[1]) {
                Some(tone) => Ok(tone),
                None => Err(()),
            }
        } else {
            Err(())
        }
    }

    /// The two bytes the radio stores for this tone squelch.
    pub fn to_bytes(&self) -> (bytes: Vec<u8>)
        ensures
            bytes@ == seq![self.code().0, self.code().1],
    {
        match self {
            CtcssDcs::Ctcss(tone) => tone.to_bytes(),
            CtcssDcs::Dcs(code) => code.to_bytes(),
            CtcssDcs::Off => {
                let bytes: Vec<u8> = vec![0xff, 0xff];
                assert(bytes@ =~= seq![self.code().0, self.code().1]);
                bytes
            },
        }
    }
}

impl Default for CtcssDcs {
    fn default() -> (tone: Self)
        ensures
            tone == CtcssDcs::Off,
    {
        CtcssDcs::Off
    }
}

impl TryFrom<&[u8]> for CtcssDcs {
    type Error = ();

    fn try_from(value: &[u8]) -> (result: Result<Self, Self::Error>)
        ensures
            result == CtcssDcs::decode(value@),
    {
        if value.len() != 2 {
            return Err(());
        }
        if value[0] == 0xff && value[1] == 0xff {
            Ok(CtcssDcs::Off)
        } else if value[1] & 0x80 == 0x80 {
            match Dcs::try_from(value) {
                Ok(code) => Ok(CtcssDcs::Dcs(code)),
                Err(error) => Err(error),
            }
        } else {
            match Ctcss::try_from(value) {
                Ok(tone) => Ok(CtcssDcs::Ctcss(tone)),
                Err(error) => Err(error),
            }
        }
    }
}

impl vstd::std_specs::convert::TryFromSpecImpl<&[u8]> for CtcssDcs {
    open spec fn obeys_try_from_spec() -> bool {
        true
    }

    open spec fn try_from_spec(value: &[u8]) -> Result<Self, ()> {
        CtcssDcs::decode(value@)
    }
}

/// Decoding the bytes stored for a tone squelch gives it back.
pub proof fn lemma_ctcss_dcs_code_round_trip(tone: CtcssDcs)
    ensures
        CtcssDcs::from_code(tone.code().0, tone.code().1) == Some(tone),
{
    match tone {
        CtcssDcs::Ctcss(t) => {
            lemma_ctcss_code_round_trip(t);
            let second = t.code().1;
            assert(second < 0x80 ==> second & 0x80 != 0x80) by (bit_vector);
        },
        CtcssDcs::Dcs(d) => {
            lemma_dcs_code_round_trip(d);
            let second = d.code().1;
            assert(second >= 0x80 ==> second & 0x80 == 0x80) by (bit_vector);
        },
        CtcssDcs::Off => {},
    }
}

/// Two bytes that name a tone squelch are the bytes stored for it.
pub proof fn lemma_ctcss_dcs_bytes_round_trip(first: u8, second: u8)
    requires
        CtcssDcs::from_code(first, second) is Some,
    ensures
        CtcssDcs::from_code(first, second).unwrap().code() == (first, second),
{
    if first == 0xff && second == 0xff {
    } else if second & 0x80 == 0x80 {
        lemma_dcs_bytes_round_trip(first, second);
    } else {
        lemma_ctcss_bytes_round_trip(first, second);
    }
}

#[derive(Debug, PartialEq, Eq, Structural)]
enum Bandwidth {
    Narrow,
    Wide,
}

#[derive(Debug, PartialEq, Eq, Structural)]
enum TxPower {
    Low,
    High,
}

/// The flags byte of a channel.
#[derive(Debug, PartialEq, Eq, Structural)]
pub struct ChannelData {
    _unknown0: bool,
    _unknown1: bool,
    _unknown2: bool,
    scan_add: bool,
    tx_power: TxPower,
    _unknown3: bool,
    bandwidth: Bandwidth,
    busy_lock: bool,
}

/// One bit of a flags byte.
pub open spec fn bit(set: bool) -> u8 {
    if set {
        1
    } else {
        0
    }
}

impl ChannelData {
    /// The flags that a stored byte stands for. Bits 7, 6, 5 and 1 are kept as they
    /// are; a clear bit 4 adds the channel to the scan list, bit 3 selects high
    /// transmit power, a clear bit 2 wide bandwidth and a clear bit 0 busy lock.
    pub closed spec fn from_byte(value: u8) -> ChannelData {
        ChannelData {
            _unknown0: value & 0x80 != 0,
            _unknown1: value & 0x40 != 0,
            _unknown2: value & 0x20 != 0,
            scan_add: value & 0x10 == 0,
            tx_power: if value & 0x08 != 0 {
                TxPower::High
            } else {
                TxPower::Low
            },
            _unknown3: value & 0x02 != 0,
            bandwidth: if value & 0x04 == 0 {
                Bandwidth::Wide
            } else {
                Bandwidth::Narrow
            },
            busy_lock: value & 0x01 == 0,
        }
    }

    /// Whether the channel is in the scan list.
    pub closed spec fn is_scan_added(self) -> bool {
        self.scan_add
    }

    /// Whether busy lock keeps the channel from transmitting while it is in use.
    pub closed spec fn is_busy_locked(self) -> bool {
        self.busy_lock
    }

    /// Whether the channel transmits with high power.
    pub closed spec fn is_high_power(self) -> bool {
        self.tx_power == TxPower::High
    }

    /// Whether the channel uses narrow bandwidth.
    pub closed spec fn is_narrow(self) -> bool {
        self.bandwidth == Bandwidth::Narrow
    }

    /// The flags of unknown meaning, in the order of bits 7, 6, 5 and 1.
    pub closed spec fn unknown_flags(self) -> (bool, bool, bool, bool) {
        (self._unknown0, self._unknown1, self._unknown2, self._unknown3)
    }

    /// The byte the radio stores for these flags.
    pub closed spec fn to_byte(self) -> u8 {
        bit(self._unknown0) << 7u8 | bit(self._unknown1) << 6u8 | bit(self._unknown2) << 5u8
            | bit(!self.scan_add) << 4u8 | bit(self.tx_power == TxPower::High) << 3u8 | bit(
            self._unknown3,
        ) << 1u8 | bit(self.bandwidth == Bandwidth::Narrow) << 2u8 | bit(!self.busy_lock)
    }
}

impl Default for ChannelData {
    fn default() -> (data: Self)
        ensures
            data == ChannelData::from_byte(0x15),
    {
        let data = ChannelData {
            _unknown0: false,
            _unknown1: false,
            _unknown2: false,
            scan_add: false,
            tx_power: TxPower::Low,
            _unknown3: false,
            bandwidth: Bandwidth::Narrow,
            busy_lock: false,
        };
        assert(0x15u8 & 0x80 == 0 && 0x15u8 & 0x40 == 0 && 0x15u8 & 0x20 == 0 && 0x15u8 & 0x10
            != 0 && 0x15u8 & 0x08 == 0 && 0x15u8 & 0x02 == 0 && 0x15u8 & 0x04 != 0 && 0x15u8 & 0x01
            != 0) by (bit_vector);
        data
    }
}

impl From<u8> for ChannelData {
    fn from(value: u8) -> (data: Self)
        ensures
            data == ChannelData::from_byte(value),
            data.is_scan_added() == (value & 0x10 == 0),
            data.is_high_power() == (value & 0x08 != 0),
            data.is_narrow() == (value & 0x04 != 0),
            data.is_busy_locked() == (value & 0x01 == 0),
            data.unknown_flags() == (value & 0x80 != 0, value & 0x40 != 0, value & 0x20 != 0, value
                & 0x02 != 0),
    {
        Self {
            _unknown0: value & 0x80 != 0,
            _unknown1: value & 0x40 != 0,
            _unknown2: value & 0x20 != 0,
            scan_add: value & 0x10 == 0,
            tx_power: if value & 0x08 != 0 {
                TxPower::High
            } else {
                TxPower::Low
            },
            _unknown3: value & 0x02 != 0,
            bandwidth: if value & 0x04 == 0 {
                Bandwidth::Wide
            } else {
                Bandwidth::Narrow
            },
            busy_lock: value & 0x01 == 0,
        }
    }
}

impl vstd::std_specs::convert::FromSpecImpl<u8> for ChannelData {
    open spec fn obeys_from_spec() -> bool {
        true
    }

    open spec fn from_spec(value: u8) -> Self {
        ChannelData::from_byte(value)
    }
}

impl From<&ChannelData> for u8 {
    fn from(value: &ChannelData) -> (byte: Self)
        ensures
            byte == value.to_byte(),
            (byte & 0x10 == 0) == value.is_scan_added(),
            (byte & 0x08 != 0) == value.is_high_power(),
            (byte & 0x04 != 0) == value.is_narrow(),
            (byte & 0x01 == 0) == value.is_busy_locked(),
            value.unknown_flags() == (byte & 0x80 != 0, byte & 0x40 != 0, byte & 0x20 != 0, byte
                & 0x02 != 0),
    {
        proof {
            lemma_byte_of_flags(*value);
        }
        (value._unknown0 as u8) << 7u8 | (value._unknown1 as u8) << 6u8 | (value._unknown2 as u8)
            << 5u8 | ((true ^ value.scan_add) as u8) << 4u8 | ((value.tx_power == TxPower::High)
            as u8) << 3u8 | (value._unknown3 as u8) << 1u8 | ((value.bandwidth
            == Bandwidth::Narrow) as u8) << 2u8 | ((true ^ value.busy_lock) as u8)
    }
}

impl vstd::std_specs::convert::FromSpecImpl<&ChannelData> for u8 {
    open spec fn obeys_from_spec() -> bool {
        true
    }

    open spec fn from_spec(value: &ChannelData) -> u8 {
        value.to_byte()
    }
}

/// Each flag is read from its own bit: a clear bit 4 adds the channel to the scan
/// list, bit 3 selects high power, bit 2 narrow bandwidth, a clear bit 0 turns busy
/// lock on, and bits 7, 6, 5 and 1 are kept as they are.
pub proof fn lemma_flags_of_byte(value: u8)
    ensures
        ChannelData::from_byte(value).is_scan_added() == (value & 0x10 == 0),
        ChannelData::from_byte(value).is_high_power() == (value & 0x08 != 0),
        ChannelData::from_byte(value).is_narrow() == (value & 0x04 != 0),
        ChannelData::from_byte(value).is_busy_locked() == (value & 0x01 == 0),
        ChannelData::from_byte(value).unknown_flags() == (
            value & 0x80 != 0,
            value & 0x40 != 0,
            value & 0x20 != 0,
            value & 0x02 != 0,
        ),
{
}

/// Each flag is written to its own bit, as `lemma_flags_of_byte` reads it.
pub proof fn lemma_byte_of_flags(data: ChannelData)
    ensures
        (data.to_byte() & 0x10 == 0) == data.is_scan_added(),
        (data.to_byte() & 0x08 != 0) == data.is_high_power(),
        (data.to_byte() & 0x04 != 0) == data.is_narrow(),
        (data.to_byte() & 0x01 == 0) == data.is_busy_locked(),
        data.unknown_flags() == (
            data.to_byte() & 0x80 != 0,
            data.to_byte() & 0x40 != 0,
            data.to_byte() & 0x20 != 0,
            data.to_byte() & 0x02 != 0,
        ),
{
    lemma_flags_round_trip(data);
    lemma_flags_of_byte(data.to_byte());
}

/// Reading a flags byte and writing it back gives the same byte.
pub proof fn lemma_flags_byte_round_trip(value: u8)
    ensures
        ChannelData::from_byte(value).to_byte() == value,
{
    assert(bit(value & 0x80 != 0) << 7u8 | bit(value & 0x40 != 0) << 6u8 | bit(value & 0x20 != 0)
        << 5u8 | bit(!(value & 0x10 == 0)) << 4u8 | bit(value & 0x08 != 0) << 3u8 | bit(value
        & 0x02 != 0) << 1u8 | bit(value & 0x04 != 0) << 2u8 | bit(!(value & 0x01 == 0)) == value)
        by (bit_vector);
}

/// Writing flags to a byte and reading it back gives the same flags.
pub proof fn lemma_flags_round_trip(data: ChannelData)
    ensures
        ChannelData::from_byte(data.to_byte()) == data,
{
    let (u0, u1, u2, s, h, u3, n, b) = (
        data._unknown0,
        data._unknown1,
        data._unknown2,
        data.scan_add,
        data.tx_power == TxPower::High,
        data._unknown3,
        data.bandwidth == Bandwidth::Narrow,
        data.busy_lock,
    );
    assert({
        let v = bit(u0) << 7u8 | bit(u1) << 6u8 | bit(u2) << 5u8 | bit(!s) << 4u8 | bit(h) << 3u8
            | bit(u3) << 1u8 | bit(n) << 2u8 | bit(!b);
        &&& (v & 0x80 != 0) == u0
        &&& (v & 0x40 != 0) == u1
        &&& (v & 0x20 != 0) == u2
        &&& (v & 0x10 == 0) == s
        &&& (v & 0x08 != 0) == h
        &&& (v & 0x02 != 0) == u3
        &&& (v & 0x04 != 0) == n
        &&& (v & 0x01 == 0) == b
    }) by (bit_vector);
}

/// One channel: frequencies in units of 10 Hz, tone squelch for each direction, and
/// the flags.
#[derive(Debug, PartialEq, Eq, Structural)]
pub struct Channel {
    pub rx_frequency: u32,
    pub tx_frequency: u32,
    pub rx_ctcss_dcs: CtcssDcs,
    pub tx_ctcss_dcs: CtcssDcs,
    pub data: ChannelData,
}

/// Whether every byte is `ff`, the pattern of an empty channel slot.
pub open spec fn all_erased(bytes: Seq<u8>) -> bool {
    forall|i: int| 0 <= i < bytes.len() ==> bytes[i] == 0xff
}

impl Channel {
    /// The eleven bytes the radio stores for this channel.
    pub open spec fn encode(self) -> Seq<u8> {
        frequency_bytes(self.rx_frequency) + frequency_bytes(self.tx_frequency) + seq![
            self.rx_ctcss_dcs.code().0,
            self.rx_ctcss_dcs.code().1,
            self.tx_ctcss_dcs.code().0,
            self.tx_ctcss_dcs.code().1,
            self.data.to_byte(),
        ]
    }

    /// What decoding a slice gives: a channel, or an error where the slice is not
    /// eleven bytes long, is all `ff`, or holds tone squelch bytes that name nothing.
    pub open spec fn decode(bytes: Seq<u8>) -> Result<Channel, ()> {
        if bytes.len() != 11 || all_erased(bytes) {
            Err(())
        } else {
            match (
                CtcssDcs::from_code(bytes[6], bytes[7]),
                CtcssDcs::from_code(bytes[8], bytes[9]),
            ) {
                (Some(rx_tone), Some(tx_tone)) => Ok(
                    Channel {
                        rx_frequency: frequency_value(bytes.subrange(0, 3)) as u32,
                        tx_frequency: frequency_value(bytes.subrange(3, 6)) as u32,
                        rx_ctcss_dcs: rx_tone,
                        tx_ctcss_dcs: tx_tone,
                        data: ChannelData::from_byte(bytes[10]),
                    },
                ),
                _ => Err(()),
            }
        }
    }

    /// The eleven bytes the radio stores for this channel.
    pub fn to_bytes(&self) -> (bytes: Vec<u8>)
        ensures
            bytes@ == self.encode(),
    {
        let mut output: Vec<u8> = Vec::new();
        let mut part = bytes_from_frequency(self.rx_frequency);
        output.append(&mut part);
        let mut part = bytes_from_frequency(self.tx_frequency);
        output.append(&mut part);
        let mut part = self.rx_ctcss_dcs.to_bytes();
        output.append(&mut part);
        let mut part = self.tx_ctcss_dcs.to_bytes();
        output.append(&mut part);
        output.push(u8::from(&self.data));
        assert(output@ =~= self.encode());
        output
    }
}

impl Default for Channel {
    fn default() -> (channel: Self)
        ensures
            channel.rx_frequency == 0,
            channel.tx_frequency == 0,
            channel.rx_ctcss_dcs == CtcssDcs::Off,
            channel.tx_ctcss_dcs == CtcssDcs::Off,
            channel.data == ChannelData::from_byte(0x15),
    {
        Channel {
            rx_frequency: 0,
            tx_frequency: 0,
            rx_ctcss_dcs: CtcssDcs::default(),
            tx_ctcss_dcs: CtcssDcs::default(),
            data: ChannelData::default(),
        }
    }
}

/// Whether every byte of the slice is `ff`.
pub(crate) fn is_erased(value: &[u8]) -> (erased: bool)
    ensures
        erased == all_erased(value@),
{
    let mut i: usize = 0;
    while i < value.len()
        invariant
            i <= value@.len(),
            forall|j: int| 0 <= j < i ==> value@[j] == 0xff,
        decreases value@.len() - i,
    {
        if value[i] != 0xff {
            return false;
        }
        i += 1;
    }
    true
}

impl TryFrom<&[u8]> for Channel {
    type Error = ();

    fn try_from(value: &[u8]) -> (result: Result<Self, Self::Error>)
        ensures
            result == Channel::decode(value@),
    {
        if value.len() != 11 {
            return Err(());
        }
        if is_erased(value) {
            return Err(());
        }
        let rx_ctcss_dcs = match CtcssDcs::try_from(&value[6..8]) {
            Ok(tone) => tone,
            Err(error) => return Err(error),
        };
        let tx_ctcss_dcs = match CtcssDcs::try_from(&value[8..10]) {
            Ok(tone) => tone,
            Err(error) => return Err(error),
        };
        let rx_frequency = frequency_from_bytes(&value[0..3]);
        let tx_frequency = frequency_from_bytes(&value[3..6]);
        proof {
            lemma_bytes_round_trip(value@.subrange(0, 3));
            lemma_bytes_round_trip(value@.subrange(3, 6));
        }
        Ok(
            Channel {
                rx_frequency,
                tx_frequency,
                rx_ctcss_dcs,
                tx_ctcss_dcs,
                data: ChannelData::from(value[10]),
            },
        )
    }
}

impl vstd::std_specs::convert::TryFromSpecImpl<&[u8]> for Channel {
    open spec fn obeys_try_from_spec() -> bool {
        true
    }

    open spec fn try_from_spec(value: &[u8]) -> Result<Self, ()> {
        Channel::decode(value@)
    }
}

/// A channel whose frequencies the radio can store, and whose bytes are not all `ff`,
/// decodes from its bytes to itself.
pub proof fn lemma_channel_round_trip(channel: Channel)
    requires
        is_storable_frequency(channel.rx_frequency),
        is_storable_frequency(channel.tx_frequency),
        !all_erased(channel.encode()),
    ensures
        channel.encode().len() == CHANNEL_SIZE,
        Channel::decode(channel.encode()) == Ok::<Channel, ()>(channel),
{
    let bytes = channel.encode();
    lemma_frequency_round_trip(channel.rx_frequency);
    lemma_frequency_round_trip(channel.tx_frequency);
    lemma_ctcss_dcs_code_round_trip(channel.rx_ctcss_dcs);
    lemma_ctcss_dcs_code_round_trip(channel.tx_ctcss_dcs);
    lemma_flags_round_trip(channel.data);
    assert(bytes.subrange(0, 3) =~= frequency_bytes(channel.rx_frequency));
    assert(bytes.subrange(3, 6) =~= frequency_bytes(channel.tx_frequency));
}

/// Bytes that decode to a channel are the bytes stored for that channel.
pub proof fn lemma_channel_bytes_round_trip(bytes: Seq<u8>)
    requires
        Channel::decode(bytes) is Ok,
    ensures
        Channel::decode(bytes).unwrap().encode() == bytes,
{
    let channel = Channel::decode(bytes).unwrap();
    lemma_bytes_round_trip(bytes.subrange(0, 3));
    lemma_bytes_round_trip(bytes.subrange(3, 6));
    lemma_ctcss_dcs_bytes_round_trip(bytes[6], bytes[7]);
    lemma_ctcss_dcs_bytes_round_trip(bytes[8], bytes[9]);
    lemma_flags_byte_round_trip(bytes[10]);
    assert(channel.encode() =~= bytes);
}

/// No tone is stored as `ff ff`; a CTCSS tone or DCS code as its own two bytes.
pub proof fn lemma_ctcss_dcs_layout(tone: CtcssDcs)
    ensures
        CtcssDcs::Off.code() == (0xffu8, 0xffu8),
        CtcssDcs::from_code(0xff, 0xff) == Some(CtcssDcs::Off),
        tone matches CtcssDcs::Ctcss(t) ==> tone.code() == t.code(),
        tone matches CtcssDcs::Dcs(d) ==> tone.code() == d.code(),
{
}

/// Where a decoded channel's fields come from: the receive frequency from bytes 0 to
/// 2, the transmit frequency from bytes 3 to 5 (each little endian, plus
/// `0x0200_0000`), the receive tone squelch from bytes 6 and 7, the transmit tone
/// squelch from bytes 8 and 9, and the flags from byte 10. Decoding fails exactly
/// where the slice is not eleven bytes long, is all `ff`, or holds tone squelch bytes
/// that name nothing.
pub proof fn lemma_channel_layout(bytes: Seq<u8>)
    ensures
        Channel::decode(bytes) is Err <==> (bytes.len() != 11 || (forall|i: int|
            0 <= i < bytes.len() ==> bytes[i] == 0xff) || CtcssDcs::from_code(bytes[6], bytes[7])
            is None || CtcssDcs::from_code(bytes[8], bytes[9]) is None),
        Channel::decode(bytes) matches Ok(channel) ==> {
            &&& channel.rx_frequency == 0x0200_0000 + bytes[0] + 256 * bytes[1] + 65536 * bytes[2]
            &&& channel.tx_frequency == 0x0200_0000 + bytes[3] + 256 * bytes[4] + 65536 * bytes[5]
            &&& channel.rx_ctcss_dcs.code() == (bytes[6], bytes[7])
            &&& channel.tx_ctcss_dcs.code() == (bytes[8], bytes[9])
            &&& channel.data.to_byte() == bytes[10]
        },
{
    if Channel::decode(bytes) is Ok {
        lemma_channel_bytes_round_trip(bytes);
        let channel = Channel::decode(bytes).unwrap();
        lemma_bytes_round_trip(bytes.subrange(0, 3));
        lemma_bytes_round_trip(bytes.subrange(3, 6));
        assert(channel.encode()[6] == bytes[6] && channel.encode()[7] == bytes[7]);
        assert(channel.encode()[8] == bytes[8] && channel.encode()[9] == bytes[9]);
        assert(channel.encode()[10] == bytes[10]);
    }
}

/// The bytes stored for a channel: the receive frequency in bytes 0 to 2, the
/// transmit frequency in bytes 3 to 5, the receive tone squelch in bytes 6 and 7, the
/// transmit tone squelch in bytes 8 and 9, and the flags in byte 10.
pub proof fn lemma_channel_encoding_layout(channel: Channel)
    ensures
        channel.encode().len() == CHANNEL_SIZE,
        channel.encode().subrange(0, 3) == frequency_bytes(channel.rx_frequency),
        channel.encode().subrange(3, 6) == frequency_bytes(channel.tx_frequency),
        (channel.encode()[6], channel.encode()[7]) == channel.rx_ctcss_dcs.code(),
        (channel.encode()[8], channel.encode()[9]) == channel.tx_ctcss_dcs.code(),
        channel.encode()[10] == channel.data.to_byte(),
{
    assert(channel.encode().subrange(0, 3) =~= frequency_bytes(channel.rx_frequency));
    assert(channel.encode().subrange(3, 6) =~= frequency_bytes(channel.tx_frequency));
}

} // verus!
