//! The configuration commands that the tuner sends to the instrument, and their MIDI messages.

use vstd::prelude::*;
use crate::continuum_midi_batch::{spec_matrix_poke_messages, ContinuumMidiBatch};
use crate::midi_codec::{spec_channel_message_bytes, ChannelMessage};
use crate::midi_message_batch::spec_message_bytes;

verus! {

/// A command to the instrument.
#[derive(Clone, Copy, Debug, PartialEq, Eq, Structural)]
pub enum MidiCommand {
    /// A control change; `channel` is 1-based.
    ControlChange { channel: u8, cc_no: u8, value: u8 },
    /// A matrix poke.
    MatrixPoke { poke_id: u8, poke_value: u8 },
}

/// Whether a command can be written (a control change needs a 1-based channel).
pub open spec fn spec_command_valid(c: MidiCommand) -> bool {
    match c {
        MidiCommand::ControlChange { channel, .. } => channel >= 1,
        MidiCommand::MatrixPoke { .. } => true,
    }
}

/// The MIDI messages that perform a command.
pub open spec fn spec_command_messages(c: MidiCommand) -> Seq<Seq<u8>> {
    match c {
        MidiCommand::ControlChange { channel, cc_no, value } =>
            seq![spec_channel_message_bytes(channel, ChannelMessage::Controller { controller: cc_no, value })],
        MidiCommand::MatrixPoke { poke_id, poke_value } => spec_matrix_poke_messages(poke_id, poke_value),
    }
}

/// The MIDI messages that perform a sequence of commands, in order.
pub open spec fn spec_commands_messages(cs: Seq<MidiCommand>) -> Seq<Seq<u8>>
    decreases cs.len(),
{
    if cs.len() == 0 {
        seq![]
    } else {
        spec_commands_messages(cs.drop_last()) + spec_command_messages(cs.last())
    }
}

/// Adds the MIDI messages of `command` to `batch`.
pub fn add_command_to_batch(command: MidiCommand, batch: &mut ContinuumMidiBatch)
    requires
        spec_command_valid(command),
    ensures
        final(batch)@ == old(batch)@ + spec_command_messages(command),
{
    match command {
        MidiCommand::ControlChange { channel, cc_no, value } => {
            batch.add_control_change(channel, cc_no, value);
            assert(batch@ =~= old(batch)@ + spec_command_messages(command));
        },
        MidiCommand::MatrixPoke { poke_id, poke_value } => {
            batch.add_matrix_poke(poke_id, poke_value);
        },
    }
}

/// Returns the MIDI messages that perform `commands`, in order.
pub fn commands_to_messages(commands: &Vec<MidiCommand>) -> (messages: Vec<Vec<u8>>)
    requires
        forall|i: int| 0 <= i < commands@.len() ==> spec_command_valid(#[trigger] commands@[i]),
    ensures
        spec_message_bytes(messages@) == spec_commands_messages(commands@),
{
    let mut batch = ContinuumMidiBatch::new();
    let n = commands.len();
    for i in 0..n
        invariant
            n == commands@.len(),
            forall|j: int| 0 <= j < commands@.len() ==> spec_command_valid(#[trigger] commands@[j]),
            batch@ == spec_commands_messages(commands@.take(i as int)),
    {
        add_command_to_batch(commands[i], &mut batch);
        assert(commands@.take(i + 1).drop_last() =~= commands@.take(i as int));
    }
    assert(commands@.take(n as int) =~= commands@);
    batch.release_to_send()
}

} // verus!
