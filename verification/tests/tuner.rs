use pitchgrid_continuum::continuum_protocol::{ContinuumProtocol, TuningStatus};
use pitchgrid_continuum::global::override_note_names;
use pitchgrid_continuum::i_continuum_protocol::ProtocolEvent;
use pitchgrid_continuum::midi_command::{commands_to_messages, MidiCommand};
use pitchgrid_continuum::tuner::{pitch_table_from_setting, Key, Tuner};

fn cc(channel: u8, cc_no: u8, value: u8) -> MidiCommand {
    MidiCommand::ControlChange { channel, cc_no, value }
}

fn keys(to_number: u8) -> Vec<Key> {
    vec![
        Key { number: 0, to_number, offset_msb: 1, offset_lsb: 2 },
        Key { number: 1, to_number: to_number + 1, offset_msb: 3, offset_lsb: 4 },
    ]
}

fn tuner_on_table(pitch_table: u8) -> Tuner {
    let mut tuner = Tuner::new();
    tuner.init(pitch_table);
    tuner
}

#[test]
fn new_tuner_has_no_data_and_default_rounding() {
    let tuner = Tuner::new();
    assert!(!tuner.has_data());
    let f = tuner.flags();
    assert!(!f.is_already_updating);
    assert!(!f.is_another_update_pending);
    assert_eq!(f.rounding_rate, 127);
    assert!(!tuner.is_root_freq_overridden());
}

#[test]
fn a_tuning_received_when_idle_is_sent_in_full() {
    let mut tuner = tuner_on_table(81);
    let mut protocol = ContinuumProtocol::new();
    let sent = tuner.on_tuning_received(keys(60), &mut protocol);
    assert_eq!(sent.events, vec![ProtocolEvent::UpdatingTuning]);
    assert_eq!(protocol.state().tuning_status, TuningStatus::Tuning);
    assert_eq!(sent.commands, vec![
        cc(16, 109, 81),
        cc(16, 38, 0), cc(16, 38, 0), cc(16, 38, 0), cc(16, 38, 60), cc(16, 38, 1), cc(16, 38, 2),
        cc(16, 38, 1), cc(16, 38, 0), cc(16, 38, 0), cc(16, 38, 61), cc(16, 38, 3), cc(16, 38, 4),
        cc(16, 109, 101),
        cc(16, 51, 81),
    ]);
    assert!(tuner.flags().is_already_updating);
    assert!(tuner.has_data());
}

#[test]
fn rounding_overrides_come_before_the_pitch_table() {
    let mut tuner = tuner_on_table(80);
    tuner.set_override_rounding_initial(true);
    tuner.set_override_rounding_rate(true);
    tuner.set_rounding_rate(42);
    let mut protocol = ContinuumProtocol::new();
    let sent = tuner.on_tuning_received(vec![], &mut protocol);
    assert_eq!(sent.commands, vec![
        cc(1, 28, 127),
        MidiCommand::MatrixPoke { poke_id: 10, poke_value: 0 },
        cc(1, 25, 42),
        cc(16, 109, 80),
        cc(16, 109, 101),
        cc(16, 51, 80),
    ]);
}

#[test]
fn tunings_coalesce_while_an_update_is_in_flight() {
    let mut tuner = tuner_on_table(80);
    let mut protocol = ContinuumProtocol::new();
    tuner.on_tuning_received(keys(60), &mut protocol);
    // While the update is in flight, new tunings wait; only the latest is kept.
    let second = tuner.on_tuning_received(keys(61), &mut protocol);
    let third = tuner.on_tuning_received(keys(62), &mut protocol);
    assert!(second.commands.is_empty() && second.events.is_empty());
    assert!(third.commands.is_empty() && third.events.is_empty());
    assert!(tuner.flags().is_another_update_pending);
    // The confirmation sends the latest tuning in full, which stays in flight.
    let sent = tuner.on_tuning_updated(&mut protocol);
    assert_eq!(sent.events, vec![ProtocolEvent::UpdatingTuning]);
    assert_eq!(sent.commands[4], cc(16, 38, 62));
    assert_eq!(sent.commands.last(), Some(&cc(16, 51, 80)));
    assert!(tuner.flags().is_already_updating);
    assert!(!tuner.flags().is_another_update_pending);
    // The next confirmation settles it.
    let settled = tuner.on_tuning_updated(&mut protocol);
    assert!(settled.commands.is_empty() && settled.events.is_empty());
    assert!(!tuner.flags().is_already_updating);
}

#[test]
fn confirmation_without_data_changes_nothing() {
    let mut tuner = Tuner::new();
    let mut protocol = ContinuumProtocol::new();
    let sent = tuner.on_tuning_updated(&mut protocol);
    assert!(sent.commands.is_empty() && sent.events.is_empty());
    assert_eq!(protocol.state().tuning_status, TuningStatus::Idle);
}

#[test]
fn preset_update_resends_without_the_pitch_table() {
    let mut tuner = tuner_on_table(83);
    let mut protocol = ContinuumProtocol::new();
    let (sent, none) = tuner.send_current_preset_update(&mut protocol);
    assert!(!sent && none.commands.is_empty());
    tuner.on_tuning_received(keys(60), &mut protocol);
    let (sent, update) = tuner.send_current_preset_update(&mut protocol);
    assert!(sent);
    assert_eq!(update.commands, vec![cc(16, 51, 83)]);
    assert_eq!(update.events, vec![ProtocolEvent::UpdatingTuning]);
}

#[test]
fn remove_data_clears_the_schedule() {
    let mut tuner = tuner_on_table(80);
    let mut protocol = ContinuumProtocol::new();
    tuner.on_tuning_received(keys(60), &mut protocol);
    tuner.on_tuning_received(keys(61), &mut protocol);
    tuner.remove_data();
    assert!(!tuner.has_data());
    assert!(!tuner.flags().is_already_updating);
    assert!(!tuner.flags().is_another_update_pending);
}

#[test]
fn root_frequency_override_choices() {
    let mut tuner = Tuner::new();
    assert!(!tuner.set_root_freq_override_note_no(7, true));
    assert_eq!(tuner.root_freq_override_note_no(), 60);
    assert!(tuner.is_root_freq_overridden());
    let mut protocol = ContinuumProtocol::new();
    tuner.on_tuning_received(keys(60), &mut protocol);
    assert!(tuner.set_root_freq_override_note_no(1, true));
    assert_eq!(tuner.root_freq_override_note_no(), 54);
    assert!(!tuner.set_root_freq_override_note_no(12, false));
    assert_eq!(tuner.root_freq_override_note_no(), 65);
    assert!(tuner.set_root_freq_override_note_no(0, true));
    assert_eq!(tuner.root_freq_override_note_no(), 0);
    assert!(!tuner.is_root_freq_overridden());
}

#[test]
fn override_names_match_override_notes() {
    let names = override_note_names();
    assert_eq!(names.len(), 13);
    assert_eq!(names[0], "");
    assert_eq!(names[1], "F#");
    assert_eq!(names[7], "C");
    assert_eq!(names[12], "F");
}

#[test]
fn pitch_tables_are_80_to_87() {
    assert_eq!(Tuner::pitch_tables(), vec![80, 81, 82, 83, 84, 85, 86, 87]);
    assert_eq!(Tuner::default_pitch_table(), 80);
    for (index, table) in Tuner::pitch_tables().into_iter().enumerate() {
        let mut tuner = Tuner::new();
        tuner.set_pitch_table(table);
        assert_eq!(tuner.pitch_table(), table);
        assert_eq!(tuner.pitch_table_index(), index);
    }
    let mut tuner = Tuner::new();
    tuner.set_pitch_table(90);
    assert_eq!(tuner.pitch_table_index(), 0);
}

#[test]
fn pitch_table_setting_falls_back_to_the_default() {
    assert_eq!(pitch_table_from_setting(84), 84);
    assert_eq!(pitch_table_from_setting(87), 87);
    assert_eq!(pitch_table_from_setting(88), 80);
    assert_eq!(pitch_table_from_setting(0), 80);
}

#[test]
fn rounding_overrides_only_when_on() {
    let mut tuner = tuner_on_table(80);
    tuner.set_override_rounding_initial(false);
    tuner.set_override_rounding_rate(true);
    tuner.set_rounding_rate(10);
    let mut protocol = ContinuumProtocol::new();
    let sent = tuner.on_tuning_received(keys(60), &mut protocol);
    assert!(!sent.commands.contains(&cc(1, 28, 127)));
    assert!(sent.commands.contains(&MidiCommand::MatrixPoke { poke_id: 10, poke_value: 0 }));
    assert!(sent.commands.contains(&cc(1, 25, 10)));
    let mut tuner = tuner_on_table(80);
    tuner.set_override_rounding_initial(true);
    let sent = tuner.on_tuning_received(keys(60), &mut protocol);
    assert_eq!(sent.commands[0], cc(1, 28, 127));
    assert!(!sent.commands.contains(&MidiCommand::MatrixPoke { poke_id: 10, poke_value: 0 }));
}

#[test]
fn tuning_updates_are_writable() {
    let mut tuner = tuner_on_table(82);
    tuner.set_override_rounding_rate(true);
    let mut protocol = ContinuumProtocol::new();
    let sent = tuner.on_tuning_received(keys(60), &mut protocol);
    let messages = commands_to_messages(&sent.commands);
    // Two key retunings (six messages each), the table selection and save, the rounding rate
    // (a two-message matrix poke and a control change) and the table loading.
    assert_eq!(messages.len(), 12 + 2 + 3 + 1);
    assert_eq!(messages.last(), Some(&vec![0xBF, 51, 82]));
}
