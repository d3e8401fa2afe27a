use pitchgrid_continuum::error_notifier::ErrorNotifier;
use pitchgrid_continuum::global::{MessageType, PortType};
use pitchgrid_continuum::i_continuum_protocol::ProtocolEvent;
use pitchgrid_continuum::midi_command::MidiCommand;
use pitchgrid_continuum::osc::{OscArg, OscEvent, TuningArgs, TUNING_ADDR};
use pitchgrid_continuum::presentation::StatusMessage;
use pitchgrid_continuum::presenter::{
    close_request_response, CloseResponse, DeviceSetup, Presenter, PresenterAction, Reaction,
};
use pitchgrid_continuum::settings::{ISettings, Settings};
use pitchgrid_continuum::tuner::Key;
use pitchgrid_continuum::tuning_update_watchdog::TUNING_UPDATE_TIMEOUT_MS;

fn show(m: StatusMessage) -> PresenterAction {
    PresenterAction::Show(m)
}

fn cc(channel: u8, cc_no: u8, value: u8) -> MidiCommand {
    MidiCommand::ControlChange { channel, cc_no, value }
}

fn keys() -> Vec<Key> {
    vec![Key { number: 0, to_number: 0, offset_msb: 0, offset_lsb: 0 }]
}

fn tuning_datagram() -> Vec<u8> {
    rosc::encoder::encode(&rosc::OscPacket::Message(rosc::OscMessage {
        addr: TUNING_ADDR.to_string(),
        args: vec![
            rosc::OscType::Int(2),
            rosc::OscType::Float(440.0),
            rosc::OscType::Float(1.0),
            rosc::OscType::Float(0.5),
            rosc::OscType::Float(0.0),
            rosc::OscType::Int(12),
            rosc::OscType::Int(5),
            rosc::OscType::Int(2),
        ],
    }))
    .unwrap()
}

/// Handles the raised events in turn, as the application does, collecting their actions.
fn handle_events(p: &mut Presenter, r: Reaction) -> Vec<PresenterAction> {
    let mut actions = r.actions;
    for event in r.events {
        let more = p.on_protocol_event(event);
        actions.extend(handle_events(p, more));
    }
    actions
}

/// A presenter with both devices connected and the instrument sending data.
fn connected_presenter() -> Presenter {
    let mut p = Presenter::new(TUNING_UPDATE_TIMEOUT_MS);
    p.init(Ok(Settings::new()));
    p.on_device_connection(PortType::Output, "Editor out", true);
    let r = p.on_device_connection(PortType::Input, "Editor in", true);
    assert_eq!(r.events, vec![ProtocolEvent::DevicesConnectedChanged]);
    p.finish_init(0);
    let r = p.midi_message(&[0xFE], 10);
    assert_eq!(r.events, vec![ProtocolEvent::ReceivingDataStarted]);
    p
}

/// A presenter whose instrument has completed its data download, with PitchGrid connected.
fn ready_presenter() -> Presenter {
    let mut p = connected_presenter();
    p.midi_message(&[0xBF, 109, 55], 20);
    let r = p.midi_message(&[0xCF, 0], 30);
    assert_eq!(r.events, vec![ProtocolEvent::DownloadCompleted]);
    let actions = handle_events(&mut p, r);
    assert_eq!(actions, vec![PresenterAction::StartOsc, show(StatusMessage::OpeningPitchgridConnection)]);
    let receipt = p.osc_datagram(&tuning_datagram(), 40);
    assert_eq!(receipt.events, vec![OscEvent::PitchGridConnectedChanged, OscEvent::TuningReceived]);
    p.on_pitchgrid_connected_changed();
    p
}

#[test]
fn init_shows_the_saved_settings() {
    let mut p = Presenter::new(TUNING_UPDATE_TIMEOUT_MS);
    let mut s = Settings::new();
    s.set_main_window_x(10);
    s.set_main_window_y(20);
    s.set_osc_listening_port(34565);
    s.set_pitch_table(83);
    s.set_override_rounding_initial(false);
    s.set_rounding_rate(64);
    let r = p.init(Ok(s));
    assert_eq!(r.actions, vec![
        PresenterAction::SetMainWindowPosition { x: 10, y: 20 },
        PresenterAction::RefreshDeviceList { device_type: PortType::Input, device_name: String::new() },
        PresenterAction::SetDevicesModel(PortType::Input),
        PresenterAction::RefreshDeviceList { device_type: PortType::Output, device_name: String::new() },
        PresenterAction::SetDevicesModel(PortType::Output),
        PresenterAction::SetSelectedOscListeningPortIndex(4),
        PresenterAction::SetSelectedPitchTableIndex(3),
        PresenterAction::SetOverrideRoundingInitial(false),
        PresenterAction::SetOverrideRoundingRate(true),
        PresenterAction::SetRoundingRate(64),
    ]);
    assert_eq!(p.osc().listening_port(), 34565);
    assert_eq!(p.tuner().pitch_table(), 83);
    assert!(!p.tuner().flags().override_rounding_initial);
}

#[test]
fn init_replaces_invalid_settings_by_defaults() {
    let mut p = Presenter::new(TUNING_UPDATE_TIMEOUT_MS);
    let mut s = Settings::new();
    s.set_osc_listening_port(34562);
    s.set_pitch_table(12);
    let r = p.init(Ok(s));
    assert_eq!(r.actions[5], PresenterAction::SetSelectedOscListeningPortIndex(1));
    assert_eq!(r.actions[6], PresenterAction::SetSelectedPitchTableIndex(0));
    assert_eq!(p.osc().listening_port(), 34561);
    assert_eq!(p.tuner().pitch_table(), 80);
}

#[test]
fn init_shows_a_settings_error() {
    let mut p = Presenter::new(TUNING_UPDATE_TIMEOUT_MS);
    let r = p.init(Err("bad settings".to_string()));
    assert_eq!(r.actions, vec![PresenterAction::ShowMessage {
        text: "bad settings".to_string(),
        message_type: MessageType::Error,
    }]);
    assert!(r.events.is_empty());
}

#[test]
fn missing_initial_device_asks_for_one() {
    let p = Presenter::new(TUNING_UPDATE_TIMEOUT_MS);
    let r = p.no_initial_device(PortType::Output);
    assert_eq!(r.actions, vec![
        PresenterAction::NoDeviceConnected(PortType::Output),
        PresenterAction::ShowMessage { text: "Connect MIDI output device".to_string(), message_type: MessageType::Warning },
        PresenterAction::FocusDevice(PortType::Output),
    ]);
}

#[test]
fn connecting_a_device_remembers_it() {
    let mut p = Presenter::new(TUNING_UPDATE_TIMEOUT_MS);
    let r = p.on_device_connection(PortType::Input, "Port 1", true);
    assert_eq!(r.actions, vec![
        PresenterAction::ConnectedDevice { device_type: PortType::Input, name: "Port 1".to_string() },
        PresenterAction::ScheduleReceptionCheck,
    ]);
    assert!(r.events.is_empty());
    assert_eq!(p.device_setting(PortType::Input), "Port 1");
    assert_eq!(p.settings().midi_input_device(), "Port 1");
}

#[test]
fn a_device_that_cannot_connect_is_reported() {
    let mut p = Presenter::new(TUNING_UPDATE_TIMEOUT_MS);
    let r = p.on_device_connection(PortType::Output, "Busy", false);
    assert_eq!(r.actions, vec![
        PresenterAction::NoDeviceConnected(PortType::Output),
        PresenterAction::ShowMessage {
            text: "Cannot connect MIDI output device Busy. The device may be in use.".to_string(),
            message_type: MessageType::Error,
        },
    ]);
    assert_eq!(p.device_setting(PortType::Output), "");
    assert!(!p.midi().is_output_device_connected());
}

#[test]
fn user_connection_of_the_second_device_starts_the_monitor() {
    let mut p = Presenter::new(TUNING_UPDATE_TIMEOUT_MS);
    p.on_device_connection(PortType::Output, "Out", true);
    let r = p.end_connect_device(PortType::Output, Some("Out"), 0);
    assert_eq!(r.actions, vec![
        PresenterAction::ShowMessage { text: "Connected MIDI output device Out".to_string(), message_type: MessageType::Info },
        PresenterAction::ShowMessage { text: "Connect MIDI input device".to_string(), message_type: MessageType::Warning },
    ]);
    let r = p.connect_device(PortType::Input, 0);
    let n = r.actions.len();
    assert_eq!(r.actions[n - 2], show(StatusMessage::DisconnectedFromPitchgrid));
    assert_eq!(r.actions[n - 1], PresenterAction::ConnectDevice { device_type: PortType::Input, index: 0 });
    p.on_device_connection(PortType::Input, "In", true);
    let r = p.end_connect_device(PortType::Input, Some("In"), 5);
    assert_eq!(r.actions, vec![
        PresenterAction::ShowMessage { text: "Connected MIDI input device In".to_string(), message_type: MessageType::Info },
        show(StatusMessage::CheckingInstrumentConnection),
        PresenterAction::StartConnectionMonitor,
    ]);
    assert!(p.midi().are_devices_connected());
}

#[test]
fn fresh_tuning_is_sent_and_confirmed() {
    let mut p = ready_presenter();
    let r = p.on_tuning_received(keys());
    assert_eq!(r.actions[0], show(StatusMessage::UpdatingInstrumentTuning));
    match &r.actions[1] {
        PresenterAction::Send(commands) => assert_eq!(commands.last(), Some(&cc(16, 51, 80))),
        other => panic!("unexpected action {:?}", other),
    }
    let actions = handle_events(&mut p, r);
    assert_eq!(actions[2], PresenterAction::StartWatchdog);
    let r = p.midi_message(&[0xBF, 51, 80], 50);
    assert_eq!(r.events, vec![ProtocolEvent::TuningUpdated]);
    let actions = handle_events(&mut p, r);
    assert_eq!(actions, vec![
        PresenterAction::CancelWatchdog,
        PresenterAction::ShowTuning { blank: false, is_root_freq_overridden: false },
        show(StatusMessage::InstrumentTuningUpdated),
    ]);
}

#[test]
fn preset_reselect_is_resent_and_confirmed_as_loaded() {
    let mut p = ready_presenter();
    let r = p.on_tuning_received(keys());
    handle_events(&mut p, r);
    let r = p.midi_message(&[0xBF, 51, 80], 50);
    handle_events(&mut p, r);
    // The player selects a preset.
    let r = p.midi_message(&[0xCF, 7], 60);
    assert_eq!(r.events, vec![ProtocolEvent::NewPresetSelected]);
    let actions = handle_events(&mut p, r);
    assert_eq!(actions, vec![
        PresenterAction::Send(vec![
            cc(1, 28, 127),
            MidiCommand::MatrixPoke { poke_id: 10, poke_value: 0 },
            cc(1, 25, 127),
            cc(16, 51, 80),
        ]),
        PresenterAction::StartWatchdog,
    ]);
    let r = p.midi_message(&[0xBF, 51, 80], 70);
    let actions = handle_events(&mut p, r);
    assert_eq!(actions.last(), Some(&show(StatusMessage::PresetTuningLoaded)));
}

#[test]
fn fresh_tuning_ends_a_preset_reselect() {
    let mut p = ready_presenter();
    let r = p.on_tuning_received(keys());
    handle_events(&mut p, r);
    let r = p.midi_message(&[0xBF, 51, 80], 50);
    handle_events(&mut p, r);
    let r = p.on_protocol_event(ProtocolEvent::NewPresetSelected);
    handle_events(&mut p, r);
    let r = p.on_tuning_received(keys());
    handle_events(&mut p, r);
    let r = p.on_protocol_event(ProtocolEvent::TuningUpdated);
    assert_eq!(r.actions.last(), Some(&show(StatusMessage::InstrumentTuningUpdated)));
}

#[test]
fn no_tuning_is_sent_to_an_absent_instrument() {
    let mut p = Presenter::new(TUNING_UPDATE_TIMEOUT_MS);
    let r = p.on_tuning_received(keys());
    assert_eq!(r.actions, vec![
        PresenterAction::StopOsc,
        PresenterAction::ShowTuning { blank: true, is_root_freq_overridden: false },
        show(StatusMessage::CannotUpdateTuningConnect),
    ]);
    assert!(r.events.is_empty());
    assert!(!p.tuner().has_data());
}

#[test]
fn lost_data_is_reported() {
    let mut p = connected_presenter();
    // No message for more than two whole seconds.
    let r = p.midi_monitor_step(3010);
    assert_eq!(r.events, vec![ProtocolEvent::ReceivingDataStopped]);
    let actions = handle_events(&mut p, r);
    assert_eq!(actions, vec![show(StatusMessage::InstrumentNotConnected)]);
    assert!(!p.midi().is_receiving_data());
}

#[test]
fn reception_check_reports_missing_data() {
    let mut p = Presenter::new(TUNING_UPDATE_TIMEOUT_MS);
    assert_eq!(p.reception_check().events, vec![ProtocolEvent::ReceivingDataStopped]);
    let mut p = connected_presenter();
    assert!(p.reception_check().events.is_empty());
}

#[test]
fn refreshing_a_connected_device_closes_pitchgrid() {
    let mut p = ready_presenter();
    let r = p.refresh_devices(PortType::Input);
    assert_eq!(r.events, vec![ProtocolEvent::DevicesConnectedChanged]);
    assert!(r.actions.contains(&PresenterAction::StopOsc));
    assert!(r.actions.contains(&PresenterAction::RefreshDeviceList {
        device_type: PortType::Input,
        device_name: "Editor in".to_string(),
    }));
    assert_eq!(r.actions.last(), Some(&PresenterAction::ShowMessage {
        text: "Refreshed MIDI input devices. You must (re)connect.".to_string(),
        message_type: MessageType::Warning,
    }));
    let actions = handle_events(&mut p, r);
    assert_eq!(actions.last(), Some(&show(StatusMessage::PitchgridConnectionClosed)));
    assert!(!p.osc().is_running());
    assert!(!p.midi().are_devices_connected());
}

#[test]
fn pitchgrid_disconnection_blanks_the_tuning() {
    let mut p = ready_presenter();
    let r = p.on_tuning_received(keys());
    handle_events(&mut p, r);
    // No message from PitchGrid for more than two seconds.
    assert_eq!(p.osc_monitor_step(2041), vec![OscEvent::PitchGridConnectedChanged]);
    let r = p.on_pitchgrid_connected_changed();
    assert_eq!(r.actions, vec![
        PresenterAction::ShowTuning { blank: true, is_root_freq_overridden: false },
        show(StatusMessage::PitchgridNotConnected),
        show(StatusMessage::AwaitingPitchgridConnection),
    ]);
    assert!(!p.tuner().has_data());
}

#[test]
fn tuning_datagram_delivers_its_arguments() {
    let mut p = ready_presenter();
    let receipt = p.osc_datagram(&tuning_datagram(), 50);
    assert_eq!(receipt.events, vec![OscEvent::TuningReceived]);
    assert_eq!(receipt.tuning, Some(TuningArgs {
        mode: 2,
        root_freq_bits: 440.0f32.to_bits(),
        stretch_bits: 1.0f32.to_bits(),
        skew_bits: 0.5f32.to_bits(),
        mode_offset_bits: 0.0f32.to_bits(),
        steps: 12,
        mos_a: 5,
        mos_b: 2,
    }));
}

#[test]
fn datagrams_are_dropped_while_the_link_is_stopped() {
    let mut p = Presenter::new(TUNING_UPDATE_TIMEOUT_MS);
    let receipt = p.osc_datagram(&tuning_datagram(), 0);
    assert!(receipt.events.is_empty());
    assert_eq!(receipt.tuning, None);
    assert!(!p.osc().is_pitchgrid_connected());
    let events = p.osc_message(TUNING_ADDR, &vec![OscArg::Int(1)], 0);
    assert!(events.is_empty());
}

#[test]
fn undecodable_datagrams_are_ignored() {
    let mut p = ready_presenter();
    let receipt = p.osc_datagram(&[1, 2, 3], 50);
    assert!(receipt.events.is_empty());
    assert_eq!(receipt.tuning, None);
}

#[test]
fn root_frequency_override_is_sent_when_ready() {
    let mut p = ready_presenter();
    let r = p.on_tuning_received(keys());
    handle_events(&mut p, r);
    let r = p.set_root_freq_override(7);
    assert_eq!(r.actions, vec![show(StatusMessage::UpdatingRootFreqOverride), PresenterAction::Retune]);
    assert_eq!(p.tuner().root_freq_override_note_no(), 60);
    let r = p.retune(keys());
    // An update is still in flight, so the recalculated tuning waits.
    assert!(r.actions.is_empty() && r.events.is_empty());
    assert!(p.tuner().flags().is_another_update_pending);
}

#[test]
fn root_frequency_override_waits_when_not_ready() {
    let mut p = Presenter::new(TUNING_UPDATE_TIMEOUT_MS);
    let r = p.set_root_freq_override(3);
    assert!(r.actions.is_empty());
    assert_eq!(p.tuner().root_freq_override_note_no(), 56);
    assert!(p.tuner().is_root_freq_overridden());
}

#[test]
fn listening_port_choice_is_saved_and_restarts_the_link() {
    let mut p = ready_presenter();
    let r = p.set_osc_listening_port(9);
    assert_eq!(r.actions, vec![PresenterAction::StopOsc, PresenterAction::StartOsc]);
    assert_eq!(p.osc().listening_port(), 34570);
    assert_eq!(p.settings().osc_listening_port(), 34570);
    let mut idle = Presenter::new(TUNING_UPDATE_TIMEOUT_MS);
    assert!(idle.set_osc_listening_port(0).actions.is_empty());
    assert_eq!(idle.osc().listening_port(), 34560);
}

#[test]
fn pitch_table_and_rounding_choices_are_saved() {
    let mut p = Presenter::new(TUNING_UPDATE_TIMEOUT_MS);
    p.set_pitch_table(7);
    assert_eq!(p.tuner().pitch_table(), 87);
    assert_eq!(p.settings().pitch_table(), 87);
    p.set_override_rounding_initial(false);
    p.set_override_rounding_rate(false);
    p.set_rounding_rate(5);
    assert!(!p.settings().override_rounding_initial());
    assert!(!p.settings().override_rounding_rate());
    assert_eq!(p.settings().rounding_rate(), 5);
    assert_eq!(p.tuner().flags().rounding_rate, 5);
}

#[test]
fn close_records_the_window_position() {
    let mut p = ready_presenter();
    let r = p.close(100, 200);
    assert_eq!(r.actions, vec![
        PresenterAction::CloseDevices,
        PresenterAction::StopConnectionMonitor,
        PresenterAction::StopOsc,
    ]);
    assert_eq!(p.settings().main_window_x(), 100);
    assert_eq!(p.settings().main_window_y(), 200);
    assert!(!p.midi().are_devices_connected());
    assert!(!p.osc().is_running());
}

#[test]
fn timeout_reports_the_missing_confirmation_or_a_send_error() {
    let p = Presenter::new(TUNING_UPDATE_TIMEOUT_MS);
    let mut notifier = ErrorNotifier::new();
    let r = p.on_tuning_update_timeout(&mut notifier);
    assert_eq!(r.actions, vec![show(StatusMessage::TuningUpdateNotConfirmed)]);
    notifier.notify_error();
    let r = p.on_tuning_update_timeout(&mut notifier);
    assert_eq!(r.actions, vec![PresenterAction::ShowMidiSendError]);
    assert!(!notifier.has_error());
    assert_eq!(p.timeout_millis(), 2000);
}

#[test]
fn download_start_and_data_start_messages() {
    let mut p = connected_presenter();
    let r = p.on_protocol_event(ProtocolEvent::DownloadStarted);
    assert_eq!(r.actions, vec![show(StatusMessage::AwaitingDataDownload)]);
    let r = p.on_protocol_event(ProtocolEvent::ReceivingDataStarted);
    assert_eq!(r.actions, vec![show(StatusMessage::WaitingForDataDownload)]);
    let mut alone = Presenter::new(TUNING_UPDATE_TIMEOUT_MS);
    assert!(alone.on_protocol_event(ProtocolEvent::ReceivingDataStarted).actions.is_empty());
}

#[test]
fn a_failed_close_keeps_the_window_once() {
    assert_eq!(close_request_response(false, true), (CloseResponse::HideWindow, false));
    assert_eq!(close_request_response(false, false), (CloseResponse::KeepWindowShown, true));
    assert_eq!(close_request_response(true, false), (CloseResponse::HideWindow, true));
    assert_eq!(close_request_response(true, true), (CloseResponse::HideWindow, true));
}

#[test]
fn protocol_events_keep_the_configuration() {
    let mut p = ready_presenter();
    p.set_pitch_table(3);
    p.set_rounding_rate(9);
    let r = p.on_tuning_received(keys());
    handle_events(&mut p, r);
    for event in [
        ProtocolEvent::TuningUpdated,
        ProtocolEvent::NewPresetSelected,
        ProtocolEvent::ReceivingDataStopped,
        ProtocolEvent::DevicesConnectedChanged,
        ProtocolEvent::DownloadCompleted,
    ] {
        let r = p.on_protocol_event(event);
        handle_events(&mut p, r);
        assert_eq!(p.tuner().pitch_table(), 83);
        assert_eq!(p.settings().pitch_table(), 83);
        assert_eq!(p.tuner().flags().rounding_rate, 9);
        assert_eq!(p.osc().listening_port(), 34561);
    }
}

#[test]
fn initial_device_is_connected_when_remembered() {
    let p = Presenter::new(TUNING_UPDATE_TIMEOUT_MS);
    let r = p.connect_initial_device(PortType::Input, Some(2));
    assert_eq!(r.actions, vec![
        PresenterAction::SelectDevice { device_type: PortType::Input, index: 2 },
        PresenterAction::ConnectDevice { device_type: PortType::Input, index: 2 },
    ]);
    let r = p.connect_initial_device(PortType::Input, None);
    assert_eq!(r.actions, p.no_initial_device(PortType::Input).actions);
}

#[test]
fn init_lists_the_remembered_devices() {
    let mut p = Presenter::new(TUNING_UPDATE_TIMEOUT_MS);
    let mut s = Settings::new();
    s.set_midi_input_device("Editor in");
    s.set_midi_output_device("Editor out");
    let r = p.init(Ok(s));
    assert_eq!(r.actions[1], PresenterAction::RefreshDeviceList {
        device_type: PortType::Input,
        device_name: "Editor in".to_string(),
    });
    assert_eq!(r.actions[3], PresenterAction::RefreshDeviceList {
        device_type: PortType::Output,
        device_name: "Editor out".to_string(),
    });
}

#[test]
fn device_setup_connects_the_output_first() {
    let mut p = Presenter::new(TUNING_UPDATE_TIMEOUT_MS);
    assert_eq!(p.next_device_setup(None), DeviceSetup::Output);
    // Without an output device, the input is not connected.
    assert_eq!(p.next_device_setup(Some(DeviceSetup::Output)), DeviceSetup::Done);
    p.on_device_connection(PortType::Output, "Out", true);
    assert_eq!(p.next_device_setup(Some(DeviceSetup::Output)), DeviceSetup::Input);
    assert_eq!(p.next_device_setup(Some(DeviceSetup::Input)), DeviceSetup::Done);
}
