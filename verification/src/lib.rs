//! Encoding and decoding of the memory image of a handheld UHF radio: channel
//! frequencies, tone squelch codes, channel flags and the settings block, and the
//! commands that read and write that memory over the programming cable.

pub mod frequency;
pub mod ctcss;
pub mod dcs;
pub mod channel;
pub mod settings;
pub mod protocol;
pub mod handshake;
