use codeplug::channel::{Channel, ChannelData, CtcssDcs};
use codeplug::ctcss::Ctcss;
use codeplug::protocol::{
    is_acknowledged, parse_read_reply, read_command, write_command, write_commands,
    CHANNEL_COUNT,
};

fn channel() -> Channel {
    Channel {
        rx_frequency: 44600625,
        tx_frequency: 44600625,
        rx_ctcss_dcs: CtcssDcs::Ctcss(Ctcss::Ctcss670),
        tx_ctcss_dcs: CtcssDcs::Off,
        data: ChannelData::from(0x05),
    }
}

#[test]
fn read_commands_address_slots() {
    assert_eq!(read_command(0), vec![0x52, 0x00, 0x00, 0x0b]);
    assert_eq!(read_command(3), vec![0x52, 0x00, 0x21, 0x0b]);
    assert_eq!(read_command(21), vec![0x52, 0x00, 0xe7, 0x0b]);
}

#[test]
fn parses_channel_reply() {
    let mut reply = vec![0x57, 0x00, 0x21, 0x0b];
    reply.extend(channel().to_bytes());
    assert_eq!(parse_read_reply(3, &reply), Ok(Some(channel())));
}

#[test]
fn parses_empty_slot() {
    let mut reply = vec![0x57, 0x00, 0x0b, 0x0b];
    reply.extend([0xff; 11]);
    assert_eq!(parse_read_reply(1, &reply), Ok(None));
}

#[test]
fn undecodable_slot_reads_as_empty() {
    let mut reply = vec![0x57, 0x00, 0x0b, 0x0b];
    reply.extend([0x00; 11]);
    assert_eq!(parse_read_reply(1, &reply), Ok(None));
}

#[test]
fn refuses_reply_for_other_slot() {
    let mut reply = vec![0x57, 0x00, 0x21, 0x0b];
    reply.extend(channel().to_bytes());
    assert_eq!(parse_read_reply(2, &reply), Err(()));
    reply[0] = 0x52;
    assert_eq!(parse_read_reply(3, &reply), Err(()));
    reply[0] = 0x57;
    reply[3] = 0x0a;
    assert_eq!(parse_read_reply(3, &reply), Err(()));
}

#[test]
fn write_command_for_channel_and_empty_slot() {
    let mut expected = vec![0x57, 0x00, 0x16, 0x0b];
    expected.extend(channel().to_bytes());
    assert_eq!(write_command(2, Some(&channel())), expected);
    let mut empty = vec![0x57, 0x00, 0x16, 0x0b];
    empty.extend([0xff; 11]);
    assert_eq!(write_command(2, None), empty);
}

#[test]
fn write_commands_fill_all_slots() {
    let channels = vec![Some(channel()), None, Some(channel())];
    let commands = write_commands(&channels).unwrap();
    assert_eq!(commands.len(), CHANNEL_COUNT);
    assert_eq!(commands[0], write_command(0, Some(&channel())));
    assert_eq!(commands[1], write_command(1, None));
    assert_eq!(commands[2], write_command(2, Some(&channel())));
    for (index, command) in commands.iter().enumerate().skip(3) {
        assert_eq!(*command, write_command(index, None));
    }
}

#[test]
fn write_commands_refuse_too_many_channels() {
    let channels: Vec<Option<Channel>> = (0..23).map(|_| None).collect();
    assert_eq!(write_commands(&channels), Err(()));
    let channels: Vec<Option<Channel>> = (0..22).map(|_| None).collect();
    assert_eq!(write_commands(&channels).unwrap().len(), 22);
}

#[test]
fn written_slot_reads_back() {
    for index in 0..CHANNEL_COUNT {
        let command = write_command(index, Some(&channel()));
        assert_eq!(parse_read_reply(index, &command), Ok(Some(channel())));
        let command = write_command(index, None);
        assert_eq!(parse_read_reply(index, &command), Ok(None));
    }
}

#[test]
fn acknowledgement() {
    assert!(is_acknowledged(&[0x06]));
    assert!(!is_acknowledged(&[0x15]));
}
