//! The raw seam by which the MIDI layer reports inbound messages and connection-lifecycle events
//! to whatever interprets them.

use vstd::prelude::*;
use crate::i_continuum_protocol::ProtocolEvent;
use crate::midi_codec::spec_parse_live_event;

verus! {

/// Receives raw inbound MIDI and generic connection-lifecycle events. Times are milliseconds on
/// the caller's monotonic clock; each method returns the interpreted events to raise.
pub trait MidiInputListener {
    /// A raw inbound MIDI message, which must be a well-formed live MIDI message.
    fn on_message(&mut self, message: &[u8], now_ms: u64, pitch_table: u8) -> Vec<ProtocolEvent>
        requires
            spec_parse_live_event(message@) is Some,
    ;

    /// The first message has arrived since monitoring started.
    fn on_receiving_data_started(&mut self, now_ms: u64) -> Vec<ProtocolEvent>;

    /// Data has stopped arriving (or never started).
    fn on_receiving_data_stopped(&mut self) -> Vec<ProtocolEvent>;

    /// Both input and output devices have just become connected, or one has dropped.
    fn on_devices_connected_changed(&mut self) -> Vec<ProtocolEvent>;
}

} // verus!
