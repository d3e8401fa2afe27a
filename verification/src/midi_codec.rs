//! The MIDI wire format of live channel messages, written and read through `midly`.

use vstd::prelude::*;

verus! {

/// A MIDI channel message that this application writes, with its data bytes.
#[derive(Clone, Copy, Debug, PartialEq, Eq, Structural)]
pub enum ChannelMessage {
    /// Control change: controller number and value.
    Controller { controller: u8, value: u8 },
    /// Polyphonic (note) aftertouch: key and pressure.
    Aftertouch { key: u8, pressure: u8 },
    /// Program change: program number.
    ProgramChange { program: u8 },
}

/// What this application reads from a live MIDI message. `channel` is 0-based.
#[derive(Clone, Copy, Debug, PartialEq, Eq, Structural)]
pub enum MidiEvent {
    /// A control change message.
    ControlChange { channel: u8, controller: u8, value: u8 },
    /// A program change message.
    ProgramChange { channel: u8, program: u8 },
    /// Any other well-formed live MIDI message.
    Other,
}

/// The high nibble of the status byte of a channel message.
pub open spec fn spec_status_nibble(m: ChannelMessage) -> int {
    match m {
        ChannelMessage::Controller { .. } => 0xB,
        ChannelMessage::Aftertouch { .. } => 0xA,
        ChannelMessage::ProgramChange { .. } => 0xC,
    }
}

/// The bytes of a live channel message on 0-based channel `channel0`: the status byte (message
/// nibble, then the low four bits of the channel), then the data bytes, each kept to seven bits.
pub open spec fn spec_write_channel_message(channel0: u8, m: ChannelMessage) -> Seq<u8> {
    let status = (spec_status_nibble(m) * 16 + channel0 % 16) as u8;
    match m {
        ChannelMessage::Controller { controller, value } =>
            seq![status, (controller % 128) as u8, (value % 128) as u8],
        ChannelMessage::Aftertouch { key, pressure } =>
            seq![status, (key % 128) as u8, (pressure % 128) as u8],
        ChannelMessage::ProgramChange { program } => seq![status, (program % 128) as u8],
    }
}

/// The number of data bytes that follow a channel-message status byte.
pub open spec fn spec_data_len(status: u8) -> int {
    let nibble = status / 16;
    if nibble == 0xC || nibble == 0xD { 1 } else { 2 }
}

/// Whether `b` holds at least `n` data bytes (bytes below 0x80) right after its status byte.
pub open spec fn spec_has_data_bytes(b: Seq<u8>, n: int) -> bool {
    &&& b.len() >= n + 1
    &&& forall|i: int| 1 <= i <= n ==> #[trigger] b[i] < 0x80
}

/// What a complete live MIDI message is read as, or `None` where it is not a well-formed live
/// message: an empty slice, a data byte in place of the status byte, a lone end-of-exclusive
/// byte (0xF7), or a channel message with too few data bytes.
pub open spec fn spec_parse_live_event(b: Seq<u8>) -> Option<MidiEvent> {
    if b.len() == 0 {
        None
    } else {
        let status = b[0];
        if 0x80 <= status <= 0xEF {
            if spec_has_data_bytes(b, spec_data_len(status)) {
                if status / 16 == 0xB {
                    Some(MidiEvent::ControlChange { channel: status % 16, controller: b[1], value: b[2] })
                } else if status / 16 == 0xC {
                    Some(MidiEvent::ProgramChange { channel: status % 16, program: b[1] })
                } else {
                    Some(MidiEvent::Other)
                }
            } else {
                None
            }
        } else if status >= 0xF8 || (0xF0 <= status <= 0xF6) {
            Some(MidiEvent::Other)
        } else {
            None
        }
    }
}

/// Writes a live channel message with `midly::live::LiveEvent::write`. The contract states the
/// bytes that midly writes: the status byte `nibble << 4 | channel`, with the channel converted by
/// `u4::from` (which keeps the low four bits), followed by the data bytes converted by `u7::from`
/// (which keeps the low seven bits). Writing to a `Vec<u8>` does not fail.
#[verifier::external_body]
fn write_live_event(channel0: u8, message: ChannelMessage) -> (bytes: Vec<u8>)
    ensures
        bytes@ == spec_write_channel_message(channel0, message),
{
    let message = match message {
        ChannelMessage::Controller { controller, value } =>
            midly::MidiMessage::Controller { controller: controller.into(), value: value.into() },
        ChannelMessage::Aftertouch { key, pressure } =>
            midly::MidiMessage::Aftertouch { key: key.into(), vel: pressure.into() },
        ChannelMessage::ProgramChange { program } =>
            midly::MidiMessage::ProgramChange { program: program.into() },
    };
    let mut buf: Vec<u8> = Vec::new();
    midly::live::LiveEvent::Midi { channel: channel0.into(), message }.write(&mut buf).unwrap();
    buf
}

/// Reads a complete live MIDI message with `midly::live::LiveEvent::parse`. The contract states
/// what midly's source does: it fails on an empty slice; it reads the data bytes up to the first
/// byte with its top bit set; a channel status (0x80..=0xEF) needs two data bytes, or one for
/// program change and channel pressure, and gives the channel as the status's low nibble; system
/// realtime statuses (0xF8..=0xFF) and system common statuses 0xF0..=0xF6 are always accepted;
/// any other status byte is refused. Controller and program change messages are passed on
/// with their fields; every other accepted message becomes `MidiEvent::Other`.
#[verifier::external_body]
fn parse_live_bytes(bytes: &[u8]) -> (event: Option<MidiEvent>)
    ensures
        event == spec_parse_live_event(bytes@),
{
    match midly::live::LiveEvent::parse(bytes) {
        Ok(midly::live::LiveEvent::Midi { channel, message: midly::MidiMessage::Controller { controller, value } }) =>
            Some(MidiEvent::ControlChange {
                channel: channel.as_int(), controller: controller.as_int(), value: value.as_int(),
            }),
        Ok(midly::live::LiveEvent::Midi { channel, message: midly::MidiMessage::ProgramChange { program } }) =>
            Some(MidiEvent::ProgramChange { channel: channel.as_int(), program: program.as_int() }),
        Ok(_) => Some(MidiEvent::Other),
        Err(_) => None,
    }
}

/// The bytes of a channel message on 1-based channel `channel`.
pub open spec fn spec_channel_message_bytes(channel: u8, m: ChannelMessage) -> Seq<u8>
    recommends
        channel >= 1,
{
    spec_write_channel_message((channel - 1) as u8, m)
}

/// Creates the bytes of a MIDI channel message. Parameter `channel` is 1-based.
pub fn create_channel_message(channel: u8, message: ChannelMessage) -> (bytes: Vec<u8>)
    requires
        channel >= 1,
    ensures
        bytes@ == spec_channel_message_bytes(channel, message),
{
    write_live_event(channel - 1, message)
}

/// Reads a complete live MIDI message, or returns `None` where it is not a well-formed one.
pub fn parse_live_event(bytes: &[u8]) -> (event: Option<MidiEvent>)
    ensures
        event == spec_parse_live_event(bytes@),
{
    parse_live_bytes(bytes)
}

/// A control change written by this application reads back as the same control change, on the
/// same (0-based) channel, with its data bytes kept to seven bits.
pub proof fn lemma_control_change_round_trip(channel: u8, controller: u8, value: u8)
    requires
        1 <= channel <= 16,
    ensures
        spec_parse_live_event(
            spec_channel_message_bytes(channel, ChannelMessage::Controller { controller, value }),
        ) == Some(MidiEvent::ControlChange {
            channel: (channel - 1) as u8,
            controller: (controller % 128) as u8,
            value: (value % 128) as u8,
        }),
{
    let b = spec_channel_message_bytes(channel, ChannelMessage::Controller { controller, value });
    assert(b[0] == 0xB0 + (channel - 1));
    assert(spec_has_data_bytes(b, 2));
}

/// A program change written by this application reads back as the same program change.
pub proof fn lemma_program_change_round_trip(channel: u8, program: u8)
    requires
        1 <= channel <= 16,
    ensures
        spec_parse_live_event(
            spec_channel_message_bytes(channel, ChannelMessage::ProgramChange { program }),
        ) == Some(MidiEvent::ProgramChange {
            channel: (channel - 1) as u8,
            program: (program % 128) as u8,
        }),
{
    let b = spec_channel_message_bytes(channel, ChannelMessage::ProgramChange { program });
    assert(b[0] == 0xC0 + (channel - 1));
    assert(spec_has_data_bytes(b, 1));
}

} // verus!
