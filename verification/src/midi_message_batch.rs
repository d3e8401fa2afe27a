use vstd::prelude::*;
use crate::midi_codec::{create_channel_message, spec_channel_message_bytes, ChannelMessage};

verus! {

/// The byte contents of a list of MIDI messages.
pub open spec fn spec_message_bytes(messages: Seq<Vec<u8>>) -> Seq<Seq<u8>> {
    messages.map_values(|m: Vec<u8>| m@)
}

/// A batch of MIDI messages that can be accumulated and then released to be sent.
pub struct MidiMessageBatch {
    messages: Vec<Vec<u8>>,
    /// Whether the caller wants each message reported as it is added (reporting is the caller's).
    pub print_messages_on_adding: bool,
}

impl View for MidiMessageBatch {
    type V = Seq<Seq<u8>>;

    closed spec fn view(&self) -> Seq<Seq<u8>> {
        spec_message_bytes(self.messages@)
    }
}

impl MidiMessageBatch {
    /// Whether messages are to be reported as they are added.
    pub closed spec fn spec_prints_on_adding(&self) -> bool {
        self.print_messages_on_adding
    }

    pub fn new(print_messages_on_adding: bool) -> (b: Self)
        ensures
            b@ == Seq::<Seq<u8>>::empty(),
            b.spec_prints_on_adding() == print_messages_on_adding,
    {
        let b = MidiMessageBatch { messages: Vec::new(), print_messages_on_adding };
        assert(b@ =~= Seq::<Seq<u8>>::empty());
        b
    }

    /// Adds a MIDI control change message to the batch.
    /// Parameter `channel` is 1-based.
    pub fn add_control_change(&mut self, channel: u8, cc_no: u8, value: u8)
        requires
            channel >= 1,
        ensures
            final(self)@ == old(self)@.push(
                spec_channel_message_bytes(channel, ChannelMessage::Controller { controller: cc_no, value }),
            ),
            final(self).spec_prints_on_adding() == old(self).spec_prints_on_adding(),
    {
        self.add_channel_message(channel, ChannelMessage::Controller { controller: cc_no, value });
    }

    /// Adds a MIDI note aftertouch (pressure) message to the batch.
    /// Parameter `channel` is 1-based.
    pub fn add_note_aftertouch(&mut self, channel: u8, key: u8, pressure: u8)
        requires
            channel >= 1,
        ensures
            final(self)@ == old(self)@.push(
                spec_channel_message_bytes(channel, ChannelMessage::Aftertouch { key, pressure }),
            ),
            final(self).spec_prints_on_adding() == old(self).spec_prints_on_adding(),
    {
        self.add_channel_message(channel, ChannelMessage::Aftertouch { key, pressure });
    }

    /// Returns all messages and clears the batch.
    pub fn release_to_send(&mut self) -> (released: Vec<Vec<u8>>)
        ensures
            spec_message_bytes(released@) == old(self)@,
            final(self)@ == Seq::<Seq<u8>>::empty(),
            final(self).spec_prints_on_adding() == old(self).spec_prints_on_adding(),
    {
        let mut released: Vec<Vec<u8>> = Vec::new();
        std::mem::swap(&mut released, &mut self.messages);
        assert(self@ =~= Seq::<Seq<u8>>::empty());
        released
    }

    /// Adds a MIDI channel message to the batch.
    /// Parameter `channel` is 1-based.
    fn add_channel_message(&mut self, channel: u8, message: ChannelMessage)
        requires
            channel >= 1,
        ensures
            final(self)@ == old(self)@.push(spec_channel_message_bytes(channel, message)),
            final(self).spec_prints_on_adding() == old(self).spec_prints_on_adding(),
    {
        let buf = create_channel_message(channel, message);
        self.add_message(buf);
    }

    /// Adds a MIDI message to the batch.
    fn add_message(&mut self, message: Vec<u8>)
        ensures
            final(self)@ == old(self)@.push(message@),
            final(self).spec_prints_on_adding() == old(self).spec_prints_on_adding(),
    {
        let ghost before = self.messages@;
        self.messages.push(message);
        assert(self.messages@ == before.push(message));
        assert(spec_message_bytes(before.push(message)) =~= spec_message_bytes(before).push(message@));
    }
}

} // verus!
