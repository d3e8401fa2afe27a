use pitchgrid_continuum::continuum_midi_batch::ContinuumMidiBatch;
use pitchgrid_continuum::midi_codec::{create_channel_message, parse_live_event, ChannelMessage, MidiEvent};
use pitchgrid_continuum::midi_command::{commands_to_messages, MidiCommand};
use pitchgrid_continuum::midi_message_batch::MidiMessageBatch;
use pitchgrid_continuum::midi_sender::{create_control_change, create_note_aftertouch};
use pitchgrid_continuum::tuner::offset_bytes;

#[test]
fn control_change_on_channel_16_selects_pitch_table() {
    assert_eq!(create_control_change(16, 51, 80), vec![0xBF, 51, 80]);
}

#[test]
fn control_change_on_channel_1() {
    assert_eq!(create_control_change(1, 28, 127), vec![0xB0, 28, 127]);
}

#[test]
fn note_aftertouch_bytes() {
    assert_eq!(create_note_aftertouch(16, 10, 0), vec![0xAF, 10, 0]);
    assert_eq!(create_note_aftertouch(1, 60, 100), vec![0xA0, 60, 100]);
}

#[test]
fn program_change_bytes() {
    assert_eq!(create_channel_message(16, ChannelMessage::ProgramChange { program: 5 }), vec![0xCF, 5]);
}

#[test]
fn data_bytes_are_kept_to_seven_bits() {
    assert_eq!(create_control_change(2, 200, 255), vec![0xB1, 200 & 0x7F, 0x7F]);
}

#[test]
fn control_change_reads_back() {
    let bytes = create_control_change(16, 109, 54);
    assert_eq!(parse_live_event(&bytes), Some(MidiEvent::ControlChange { channel: 15, controller: 109, value: 54 }));
}

#[test]
fn program_change_reads_back() {
    let bytes = create_channel_message(16, ChannelMessage::ProgramChange { program: 12 });
    assert_eq!(parse_live_event(&bytes), Some(MidiEvent::ProgramChange { channel: 15, program: 12 }));
}

#[test]
fn other_channel_messages_read_as_other() {
    assert_eq!(parse_live_event(&[0x90, 60, 100]), Some(MidiEvent::Other));
    assert_eq!(parse_live_event(&[0xA3, 60, 10]), Some(MidiEvent::Other));
}

#[test]
fn malformed_messages_do_not_read() {
    assert_eq!(parse_live_event(&[]), None);
    assert_eq!(parse_live_event(&[0xB0, 1]), None);
    assert_eq!(parse_live_event(&[0x12, 0x34]), None);
}

#[test]
fn message_batch_keeps_order_and_is_emptied_on_release() {
    let mut batch = MidiMessageBatch::new(false);
    batch.add_control_change(16, 109, 80);
    batch.add_note_aftertouch(16, 10, 0);
    let released = batch.release_to_send();
    assert_eq!(released, vec![vec![0xBF, 109, 80], vec![0xAF, 10, 0]]);
    assert!(batch.release_to_send().is_empty());
}

#[test]
fn matrix_poke_is_command_then_aftertouch() {
    let mut batch = ContinuumMidiBatch::new();
    batch.add_matrix_poke(10, 0);
    assert_eq!(batch.release_to_send(), vec![vec![0xBF, 56, 20], vec![0xAF, 10, 0]]);
}

#[test]
fn continuum_batch_control_change() {
    let mut batch = ContinuumMidiBatch::new();
    batch.add_control_change(1, 25, 64);
    batch.add_control_change(16, 51, 81);
    assert_eq!(batch.release_to_send(), vec![vec![0xB0, 25, 64], vec![0xBF, 51, 81]]);
    assert!(batch.release_to_send().is_empty());
}

#[test]
fn commands_become_messages_in_order() {
    let commands = vec![
        MidiCommand::ControlChange { channel: 1, cc_no: 28, value: 127 },
        MidiCommand::MatrixPoke { poke_id: 10, poke_value: 0 },
        MidiCommand::ControlChange { channel: 16, cc_no: 51, value: 80 },
    ];
    assert_eq!(commands_to_messages(&commands), vec![
        vec![0xB0, 28, 127],
        vec![0xBF, 56, 20],
        vec![0xAF, 10, 0],
        vec![0xBF, 51, 80],
    ]);
}

#[test]
fn offset_is_split_into_seven_bit_halves() {
    assert_eq!(offset_bytes(0), (0, 0));
    assert_eq!(offset_bytes(16383), (127, 127));
    assert_eq!(offset_bytes(8192), (64, 0));
    assert_eq!(offset_bytes(300), (2, 44));
}
