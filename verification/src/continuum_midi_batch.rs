use vstd::prelude::*;
use crate::midi_codec::{spec_channel_message_bytes, ChannelMessage};
use crate::midi_message_batch::{spec_message_bytes, MidiMessageBatch};

verus! {

/// The two messages that perform a Continuum matrix poke: the Matrix Poke command (channel 16,
/// controller 56, value 20), then a note aftertouch on channel 16 whose key is the poke id and
/// whose pressure is the poke value.
pub open spec fn spec_matrix_poke_messages(poke_id: u8, poke_value: u8) -> Seq<Seq<u8>> {
    seq![
        spec_channel_message_bytes(16, ChannelMessage::Controller { controller: 56, value: 20 }),
        spec_channel_message_bytes(16, ChannelMessage::Aftertouch { key: poke_id, pressure: poke_value }),
    ]
}

/// A batch of Continuum configuration MIDI messages that can be accumulated and then released to
/// be sent to the Continuum instrument.
pub struct ContinuumMidiBatch {
    message_batch: MidiMessageBatch,
}

impl View for ContinuumMidiBatch {
    type V = Seq<Seq<u8>>;

    closed spec fn view(&self) -> Seq<Seq<u8>> {
        self.message_batch@
    }
}

impl ContinuumMidiBatch {
    pub fn new() -> (b: Self)
        ensures
            b@ == Seq::<Seq<u8>>::empty(),
    {
        Self { message_batch: MidiMessageBatch::new(false) }
    }

    /// Adds a MIDI control change message to the batch.
    /// Parameter `channel` is 1-based.
    pub fn add_control_change(&mut self, channel: u8, cc_no: u8, value: u8)
        requires
            channel >= 1,
        ensures
            final(self)@ == old(self)@.push(
                spec_channel_message_bytes(channel, ChannelMessage::Controller { controller: cc_no, value }),
            ),
    {
        self.message_batch.add_control_change(channel, cc_no, value);
    }

    /// Adds the MIDI messages for a matrix poke to the batch.
    pub fn add_matrix_poke(&mut self, poke_id: u8, poke_value: u8)
        ensures
            final(self)@ == old(self)@ + spec_matrix_poke_messages(poke_id, poke_value),
    {
        self.message_batch.add_control_change(16, 56, 20);  // Matrix Poke command
        self.message_batch.add_note_aftertouch(16, poke_id, poke_value);  // Perform the Poke
        assert(self@ =~= old(self)@ + spec_matrix_poke_messages(poke_id, poke_value));
    }

    /// Returns all messages and clears the batch.
    pub fn release_to_send(&mut self) -> (released: Vec<Vec<u8>>)
        ensures
            spec_message_bytes(released@) == old(self)@,
            final(self)@ == Seq::<Seq<u8>>::empty(),
    {
        self.message_batch.release_to_send()
    }
}

} // verus!
