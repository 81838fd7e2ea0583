//! Reading and writing the channel memory over the programming cable.
//!
//! The radio holds 22 channel slots of eleven bytes, slot `i` at address `11 * i`.
//! A read command is `52 hi lo 0b`; the radio answers `57 hi lo 0b` and the eleven
//! bytes. A write command is `57 hi lo 0b` and the eleven bytes; the radio
//! acknowledges with `06`. An empty slot holds eleven `ff` bytes.
use vstd::prelude::*;

use crate::channel::{all_erased, is_erased, lemma_channel_round_trip, Channel, CHANNEL_SIZE};
use crate::frequency::is_storable_frequency;

verus! {

/// The number of channel slots.
pub const CHANNEL_COUNT: usize = 22;

/// The byte the radio answers with when it accepted a command.
pub const SUCCESS: u8 = 6;

/// The length of the radio's reply to a read command.
pub const READ_REPLY_SIZE: usize = 15;

/// The first byte of a read command.
pub const READ: u8 = 0x52;

/// The first byte of a write command, and of the reply to a read command.
pub const WRITE: u8 = 0x57;

/// The address of a channel slot.
pub open spec fn slot_address(index: int) -> int {
    11 * index
}

/// The four bytes that open a command or reply for a slot: the command byte, the
/// slot's address big endian, and the block length.
pub open spec fn header(command: u8, index: int) -> Seq<u8> {
    seq![command, (slot_address(index) / 256) as u8, (slot_address(index) % 256) as u8, 0x0bu8]
}

/// Eleven `ff` bytes: an empty slot.
pub open spec fn erased_slot() -> Seq<u8> {
    Seq::new(11, |i: int| 0xffu8)
}

/// The bytes written to a slot for what it should hold.
pub open spec fn slot_bytes(slot: Option<Channel>) -> Seq<u8> {
    match slot {
        Some(channel) => channel.encode(),
        None => erased_slot(),
    }
}

/// What a reply to the read of a slot says: an error where its header is not the
/// one of that slot; otherwise the channel its eleven data bytes decode to, or none
/// where they are all `ff` or decode to no channel.
pub open spec fn read_reply(index: int, reply: Seq<u8>) -> Result<Option<Channel>, ()> {
    if reply.subrange(0, 4) != header(WRITE, index) {
        Err(())
    } else {
        let data = reply.subrange(4, reply.len() as int);
        if all_erased(data) {
            Ok(None)
        } else {
            match Channel::decode(data) {
                Ok(channel) => Ok(Some(channel)),
                Err(_) => Ok(None),
            }
        }
    }
}

/// The write command for a slot.
pub open spec fn write_command_bytes(index: int, slot: Option<Channel>) -> Seq<u8> {
    header(WRITE, index) + slot_bytes(slot)
}

/// What the slot at an index holds in a list of slots; slots past its end are empty.
pub open spec fn slot_at(slots: Seq<Option<Channel>>, index: int) -> Option<Channel> {
    if index < slots.len() {
        slots[index]
    } else {
        None
    }
}

/// The command header for a slot.
fn slot_header(command: u8, index: usize) -> (bytes: Vec<u8>)
    requires
        index < CHANNEL_COUNT,
    ensures
        bytes@ == header(command, index as int),
{
    let address: u16 = (index as u16) * 11;
    // The address, big endian.
    let bytes: Vec<u8> = vec![command, (address >> 8u16) as u8, address as u8, 0x0b];
    assert((address >> 8u16) as u8 == address / 256 && address as u8 == address % 256)
        by (bit_vector);
    assert(bytes@ =~= header(command, index as int));
    bytes
}

/// The command that reads a slot.
pub fn read_command(index: usize) -> (command: Vec<u8>)
    requires
        index < CHANNEL_COUNT,
    ensures
        command@ == header(READ, index as int),
        command@ == seq![0x52u8, 0u8, (11 * index) as u8, 0x0bu8],
{
    proof {
        lemma_header_layout(READ, index as int);
    }
    slot_header(READ, index)
}

/// Reads the radio's reply to the read of a slot: `Err` where the header does not
/// match the slot, else the channel the slot holds, if any.
pub fn parse_read_reply(index: usize, reply: &[u8]) -> (result: Result<Option<Channel>, ()>)
    requires
        index < CHANNEL_COUNT,
        reply@.len() == READ_REPLY_SIZE,
    ensures
        result == read_reply(index as int, reply@),
{
    let expected = slot_header(WRITE, index);
    if reply[0] == WRITE && reply[1] == expected[1] && reply[2] == expected[2] && reply[3] == 0x0b {
        assert(reply@.subrange(0, 4) =~= header(WRITE, index as int));
        let data = &reply[4..reply.len()];
        let erased = is_erased(data);
        if erased {
            Ok(None)
        } else {
            match Channel::try_from(data) {
                Ok(channel) => Ok(Some(channel)),
                Err(_) => Ok(None),
            }
        }
    } else {
        proof {
            if reply@.subrange(0, 4) == header(WRITE, index as int) {
                assert(reply@[0] == reply@.subrange(0, 4)[0]);
                assert(reply@[1] == reply@.subrange(0, 4)[1]);
                assert(reply@[2] == reply@.subrange(0, 4)[2]);
                assert(reply@[3] == reply@.subrange(0, 4)[3]);
            }
        }
        Err(())
    }
}

/// The command that writes a slot.
pub fn write_command(index: usize, slot: Option<&Channel>) -> (command: Vec<u8>)
    requires
        index < CHANNEL_COUNT,
    ensures
        command@ == write_command_bytes(
            index as int,
            match slot {
                Some(channel) => Some(*channel),
                None => None,
            },
        ),
        command@.len() == 15,
        command@.subrange(0, 4) == seq![0x57u8, 0u8, (11 * index) as u8, 0x0bu8],
        slot is None ==> forall|i: int| 4 <= i < 15 ==> #[trigger] command@[i] == 0xff,
        slot matches Some(channel) ==> command@.subrange(4, 15) == channel.encode(),
{
    proof {
        lemma_header_layout(WRITE, index as int);
        if let Some(channel) = slot {
            crate::channel::lemma_channel_encoding_layout(*channel);
        }
    }
    let mut command = slot_header(WRITE, index);
    match slot {
        Some(channel) => {
            let mut data = channel.to_bytes();
            command.append(&mut data);
        },
        None => {
            let mut i: usize = 0;
            while i < CHANNEL_SIZE
                invariant
                    i <= CHANNEL_SIZE,
                    command@ == header(WRITE, index as int) + erased_slot().subrange(0, i as int),
                decreases CHANNEL_SIZE - i,
            {
                command.push(0xff);
                i += 1;
                assert(command@ =~= header(WRITE, index as int) + erased_slot().subrange(
                    0,
                    i as int,
                ));
            }
            assert(erased_slot().subrange(0, 11) =~= erased_slot());
        },
    }
    command
}

/// The write commands for all slots, the given channels first and empty slots after
/// them; `Err` where there are more channels than slots.
pub fn write_commands(channels: &Vec<Option<Channel>>) -> (result: Result<Vec<Vec<u8>>, ()>)
    ensures
        channels@.len() > CHANNEL_COUNT ==> result is Err,
        channels@.len() <= CHANNEL_COUNT ==> result is Ok,
        channels@.len() > 22 ==> result is Err,
        result matches Ok(commands) ==> {
            &&& commands@.len() == CHANNEL_COUNT
            &&& commands@.len() == 22
            &&& forall|i: int|
                0 <= i < CHANNEL_COUNT ==> #[trigger] commands@[i]@ == write_command_bytes(
                    i,
                    slot_at(channels@, i),
                )
            &&& forall|i: int|
                0 <= i < channels@.len() ==> #[trigger] commands@[i]@ == header(WRITE, i)
                    + slot_bytes(channels@[i])
            &&& forall|i: int|
                channels@.len() <= i < CHANNEL_COUNT ==> #[trigger] commands@[i]@ == header(
                    WRITE,
                    i,
                ) + erased_slot()
        },
{
    if channels.len() > CHANNEL_COUNT {
        return Err(());
    }
    let mut commands: Vec<Vec<u8>> = Vec::new();
    let mut i: usize = 0;
    while i < CHANNEL_COUNT
        invariant
            i <= CHANNEL_COUNT,
            commands@.len() == i,
            forall|j: int|
                0 <= j < i ==> #[trigger] commands@[j]@ == write_command_bytes(
                    j,
                    slot_at(channels@, j),
                ),
        decreases CHANNEL_COUNT - i,
    {
        let command = if i < channels.len() {
            match &channels[i] {
                Some(channel) => write_command(i, Some(channel)),
                None => write_command(i, None),
            }
        } else {
            write_command(i, None)
        };
        commands.push(command);
        i += 1;
    }
    Ok(commands)
}

/// Whether the radio acknowledged a command.
pub fn is_acknowledged(reply: &[u8]) -> (accepted: bool)
    requires
        reply@.len() >= 1,
    ensures
        accepted == (reply@[0] == SUCCESS),
        accepted == (reply@[0] == 0x06),
{
    reply[0] == SUCCESS
}

/// The radio's reply to the read of a slot has the form of the command that wrote
/// it, so reading what was written gives back the slot's contents: a channel whose
/// frequencies the radio can store and whose bytes are not all `ff`, or nothing.
pub proof fn lemma_write_read_slot(index: int, slot: Option<Channel>)
    requires
        0 <= index < CHANNEL_COUNT,
        slot matches Some(channel) ==> {
            &&& is_storable_frequency(channel.rx_frequency)
            &&& is_storable_frequency(channel.tx_frequency)
            &&& !all_erased(channel.encode())
        },
    ensures
        write_command_bytes(index, slot).len() == READ_REPLY_SIZE,
        read_reply(index, write_command_bytes(index, slot)) == Ok::<Option<Channel>, ()>(slot),
{
    let bytes = write_command_bytes(index, slot);
    assert(bytes.subrange(0, 4) =~= header(WRITE, index));
    assert(bytes.subrange(4, bytes.len() as int) =~= slot_bytes(slot));
    match slot {
        Some(channel) => {
            lemma_channel_round_trip(channel);
        },
        None => {
            assert(all_erased(erased_slot()));
        },
    }
}

/// Every given slot is written to its own index, and the slots past the end of the
/// list are empty.
pub proof fn lemma_slot_at(slots: Seq<Option<Channel>>, index: int)
    requires
        0 <= index,
    ensures
        index < slots.len() ==> slot_at(slots, index) == slots[index],
        index >= slots.len() ==> slot_at(slots, index) is None,
{
}

/// A slot's header: the command byte, the slot's address `11 * index` big endian
/// (its high byte is 0 for all 22 slots), and the block length `0b`. An empty slot is
/// eleven `ff` bytes.
pub proof fn lemma_header_layout(command: u8, index: int)
    requires
        0 <= index < CHANNEL_COUNT,
    ensures
        header(command, index) == seq![command, 0u8, (11 * index) as u8, 0x0bu8],
        0 <= 11 * index < 256,
        erased_slot().len() == 11,
        forall|i: int| 0 <= i < 11 ==> #[trigger] erased_slot()[i] == 0xff,
{
}

/// A read reply is accepted exactly when it starts `57 00 (11 * index) 0b`; its
/// channel then comes from bytes 4 to 14, none where they are all `ff` or name no
/// channel.
pub proof fn lemma_read_reply_layout(index: int, reply: Seq<u8>)
    requires
        0 <= index < CHANNEL_COUNT,
        reply.len() == READ_REPLY_SIZE,
    ensures
        read_reply(index, reply) is Ok <==> (reply[0] == 0x57 && reply[1] == 0 && reply[2] == 11
            * index && reply[3] == 0x0b),
        read_reply(index, reply) matches Ok(slot) ==> match Channel::decode(
            reply.subrange(4, 15),
        ) {
            Ok(channel) => slot == Some(channel),
            Err(_) => slot is None,
        },
{
    lemma_header_layout(WRITE, index);
    let head = reply.subrange(0, 4);
    if reply[0] == 0x57 && reply[1] == 0 && reply[2] == 11 * index && reply[3] == 0x0b {
        assert(head =~= header(WRITE, index));
    } else {
        assert(head[0] == reply[0] && head[1] == reply[1] && head[2] == reply[2] && head[3]
            == reply[3]);
    }
    if read_reply(index, reply) is Ok {
        let data = reply.subrange(4, 15);
        if all_erased(data) {
            assert(Channel::decode(data) is Err);
        }
    }
}

} // verus!
