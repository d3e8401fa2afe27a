//! The messages that the MIDI sender writes to the instrument's output connection.

use vstd::prelude::*;
use crate::midi_codec::{create_channel_message, spec_channel_message_bytes, ChannelMessage};

verus! {

/// Sends MIDI messages to the instrument. Sending is the application's: it writes to the output
/// connection, recording any failure in the error notifier that the tuning update watchdog reads.
pub trait IMidiSender {
    /// Sends messages in order, pausing for `delay_after_each_send_ms` after each.
    fn send_batch(&mut self, batch: Vec<Vec<u8>>, delay_after_each_send_ms: u8);

    /// Sends a control change; `channel` is 1-based.
    fn send_control_change(&mut self, channel: u8, cc_no: u8, value: u8, delay_after_send_ms: u8)
        requires
            channel >= 1,
    ;

    /// Sends one message, pausing for `delay_after_send_ms` after it.
    fn send_message(&mut self, message: &[u8], delay_after_send_ms: u8);
}

/// Creates a MIDI control change message.
/// Parameter `channel` is 1-based.
pub fn create_control_change(channel: u8, cc_no: u8, value: u8) -> (bytes: Vec<u8>)
    requires
        channel >= 1,
    ensures
        bytes@ == spec_channel_message_bytes(channel, ChannelMessage::Controller { controller: cc_no, value }),
{
    create_channel_message(channel, ChannelMessage::Controller { controller: cc_no, value })
}

/// Creates a MIDI note (polyphonic) aftertouch (pressure) message.
/// Parameter `channel` is 1-based.
pub fn create_note_aftertouch(channel: u8, key: u8, pressure: u8) -> (bytes: Vec<u8>)
    requires
        channel >= 1,
    ensures
        bytes@ == spec_channel_message_bytes(channel, ChannelMessage::Aftertouch { key, pressure }),
{
    create_channel_message(channel, ChannelMessage::Aftertouch { key, pressure })
}

} // verus!
