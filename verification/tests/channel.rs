use codeplug::channel::{Channel, ChannelData, CtcssDcs};
use codeplug::ctcss::Ctcss;
use codeplug::dcs::Dcs;

const PMR_ONE: [u8; 11] = [0x31, 0x8d, 0xa8, 0x31, 0x8d, 0xa8, 0x70, 0x06, 0x13, 0xc0, 0x05];

#[test]
fn decodes_channel() {
    let channel = Channel::try_from(&PMR_ONE[..]).unwrap();
    assert_eq!(channel.rx_frequency, 44600625);
    assert_eq!(channel.tx_frequency, 44600625);
    assert_eq!(channel.rx_ctcss_dcs, CtcssDcs::Ctcss(Ctcss::Ctcss670));
    assert_eq!(channel.tx_ctcss_dcs, CtcssDcs::Dcs(Dcs::D023I));
    assert_eq!(channel.data, ChannelData::from(0x05));
    assert_eq!(channel.to_bytes(), PMR_ONE.to_vec());
}

#[test]
fn refuses_wrong_length() {
    assert_eq!(Channel::try_from(&PMR_ONE[..10]), Err(()));
    let mut longer = PMR_ONE.to_vec();
    longer.push(0);
    assert_eq!(Channel::try_from(&longer[..]), Err(()));
}

#[test]
fn refuses_erased_slot() {
    assert_eq!(Channel::try_from(&[0xffu8; 11][..]), Err(()));
}

#[test]
fn refuses_unknown_tone() {
    let mut bytes = PMR_ONE;
    bytes[7] = 0x7f;
    assert_eq!(Channel::try_from(&bytes[..]), Err(()));
    let mut bytes = PMR_ONE;
    bytes[8] = 0x00;
    assert_eq!(Channel::try_from(&bytes[..]), Err(()));
}

#[test]
fn encodes_channel() {
    let channel = Channel {
        rx_frequency: 46256250,
        tx_frequency: 46256250,
        rx_ctcss_dcs: CtcssDcs::Off,
        tx_ctcss_dcs: CtcssDcs::Ctcss(Ctcss::Ctcss1000),
        data: ChannelData::from(0x1f),
    };
    let bytes = channel.to_bytes();
    assert_eq!(bytes, vec![0x7a, 0xd0, 0xc1, 0x7a, 0xd0, 0xc1, 0xff, 0xff, 0x00, 0x10, 0x1f]);
    assert_eq!(Channel::try_from(&bytes[..]), Ok(channel));
}

#[test]
fn all_ff_channel_does_not_read_back() {
    let channel = Channel {
        rx_frequency: 0x02ff_ffff,
        tx_frequency: 0x02ff_ffff,
        rx_ctcss_dcs: CtcssDcs::Off,
        tx_ctcss_dcs: CtcssDcs::Off,
        data: ChannelData::from(0xff),
    };
    assert_eq!(channel.to_bytes(), vec![0xff; 11]);
    assert_eq!(Channel::try_from(&channel.to_bytes()[..]), Err(()));
}

#[test]
fn flags_byte_round_trips() {
    for value in 0..=255u8 {
        let data = ChannelData::from(value);
        assert_eq!(u8::from(&data), value);
        assert_eq!(ChannelData::from(u8::from(&data)), data);
    }
}

#[test]
fn default_flags() {
    assert_eq!(u8::from(&ChannelData::default()), 0x15);
    let channel = Channel::default();
    assert_eq!(channel.rx_frequency, 0);
    assert_eq!(channel.tx_ctcss_dcs, CtcssDcs::Off);
    assert_eq!(channel.data, ChannelData::from(0x15));
}
