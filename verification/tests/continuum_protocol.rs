use pitchgrid_continuum::continuum_protocol::{ContinuumProtocol, DownloadStatus, TuningStatus};
use pitchgrid_continuum::i_continuum_protocol::{
    IContinuumProtocol, NullTuningSignaller, ProtocolEvent, TuningUpdateSignaller,
};
use pitchgrid_continuum::i_midi_manager::MidiInputListener;

const PITCH_TABLE: u8 = 80;

fn cc16(controller: u8, value: u8) -> [u8; 3] {
    [0xBF, controller, value]
}

fn program16(program: u8) -> [u8; 2] {
    [0xCF, program]
}

#[test]
fn new_protocol_has_not_checked_the_download() {
    let p = ContinuumProtocol::new();
    let s = p.state();
    assert_eq!(s.download_status, DownloadStatus::NotChecked);
    assert_eq!(s.tuning_status, TuningStatus::Idle);
    assert!(!p.has_downloaded_init_data());
}

#[test]
fn first_data_starts_the_download_wait() {
    let mut p = ContinuumProtocol::new();
    assert_eq!(p.on_receiving_data_started(1000), vec![ProtocolEvent::ReceivingDataStarted]);
    assert_eq!(p.state().download_status, DownloadStatus::Waiting);
    assert_eq!(p.state().download_wait_start_ms, Some(1000));
}

#[test]
fn download_markers_report_the_download_starting() {
    let mut p = ContinuumProtocol::new();
    assert_eq!(p.on_message(&cc16(109, 49), 0, PITCH_TABLE), vec![ProtocolEvent::DownloadStarted]);
    assert_eq!(p.state().download_status, DownloadStatus::BeginSysNames);
    assert_eq!(p.on_message(&cc16(109, 40), 1, PITCH_TABLE), vec![]);
    assert_eq!(p.state().download_status, DownloadStatus::EndSysNames);
    assert_eq!(p.on_message(&cc16(109, 54), 2, PITCH_TABLE), vec![ProtocolEvent::DownloadStarted]);
    assert_eq!(p.on_message(&cc16(109, 55), 3, PITCH_TABLE), vec![]);
    assert_eq!(p.state().download_status, DownloadStatus::EndUserNames);
}

#[test]
fn program_change_after_user_names_completes_the_download() {
    let mut p = ContinuumProtocol::new();
    p.on_message(&cc16(109, 55), 0, PITCH_TABLE);
    assert_eq!(p.on_message(&program16(0), 1, PITCH_TABLE), vec![ProtocolEvent::DownloadCompleted]);
    assert!(p.has_downloaded_init_data());
    // Once complete, a program change means the player has selected a preset.
    assert_eq!(p.on_message(&program16(3), 2, PITCH_TABLE), vec![ProtocolEvent::NewPresetSelected]);
}

#[test]
fn program_change_before_the_download_means_nothing() {
    let mut p = ContinuumProtocol::new();
    assert_eq!(p.on_message(&program16(3), 0, PITCH_TABLE), vec![]);
    assert!(!p.has_downloaded_init_data());
}

#[test]
fn other_channels_are_ignored() {
    let mut p = ContinuumProtocol::new();
    assert_eq!(p.on_message(&[0xB0, 109, 49], 0, PITCH_TABLE), vec![]);
    assert_eq!(p.on_message(&[0xC1, 2], 1, PITCH_TABLE), vec![]);
    assert_eq!(p.state().download_status, DownloadStatus::NotChecked);
}

#[test]
fn a_quiet_gap_completes_a_monitored_download() {
    let mut p = ContinuumProtocol::new();
    p.on_receiving_data_started(0);
    // Within six seconds of the first message, the download is not monitored.
    assert_eq!(p.on_message(&[0xFE], 5999, PITCH_TABLE), vec![]);
    assert!(!p.state().is_monitoring_download);
    // From six seconds on, it is.
    assert_eq!(p.on_message(&[0xFE], 6000, PITCH_TABLE), vec![]);
    assert!(p.state().is_monitoring_download);
    // Messages in quick succession keep it going.
    assert_eq!(p.on_message(&[0xFE], 6199, PITCH_TABLE), vec![]);
    // A gap of 200 ms completes it.
    assert_eq!(p.on_message(&[0xFE], 6399, PITCH_TABLE), vec![ProtocolEvent::DownloadCompleted]);
    assert!(p.has_downloaded_init_data());
    assert!(!p.state().is_monitoring_download);
}

#[test]
fn only_the_awaited_pitch_table_confirms_a_tuning_update() {
    let mut p = ContinuumProtocol::new();
    // Without an update in flight, a grid report confirms nothing.
    assert_eq!(p.on_message(&cc16(51, PITCH_TABLE), 0, PITCH_TABLE), vec![]);
    assert_eq!(p.on_updating_tuning(), vec![ProtocolEvent::UpdatingTuning]);
    assert_eq!(p.state().tuning_status, TuningStatus::Tuning);
    // A preset's own grid (zero) does not confirm it.
    assert_eq!(p.on_message(&cc16(51, 0), 1, PITCH_TABLE), vec![]);
    assert_eq!(p.state().tuning_status, TuningStatus::Tuning);
    // The pitch table sent does.
    assert_eq!(p.on_message(&cc16(51, PITCH_TABLE), 2, PITCH_TABLE), vec![ProtocolEvent::TuningUpdated]);
    assert_eq!(p.state().tuning_status, TuningStatus::Idle);
    // And only once.
    assert_eq!(p.on_message(&cc16(51, PITCH_TABLE), 3, PITCH_TABLE), vec![]);
}

#[test]
fn connection_lifecycle_events_pass_through() {
    let mut p = ContinuumProtocol::new();
    assert_eq!(p.on_receiving_data_stopped(), vec![ProtocolEvent::ReceivingDataStopped]);
    assert_eq!(p.on_devices_connected_changed(), vec![ProtocolEvent::DevicesConnectedChanged]);
    assert_eq!(p.state().download_status, DownloadStatus::NotChecked);
}

#[test]
fn null_signaller_raises_nothing() {
    let mut s = NullTuningSignaller;
    assert!(s.on_updating_tuning().is_empty());
}

#[test]
fn a_marker_ending_the_gap_overrides_the_completion() {
    let mut p = ContinuumProtocol::new();
    p.on_receiving_data_started(0);
    p.on_message(&[0xFE], 6000, PITCH_TABLE);
    assert!(p.state().is_monitoring_download);
    // The gap completes the download, but the message after it is an end-of-names marker.
    assert_eq!(p.on_message(&cc16(109, 40), 6200, PITCH_TABLE), vec![ProtocolEvent::DownloadCompleted]);
    assert_eq!(p.state().download_status, DownloadStatus::EndSysNames);
    assert!(!p.has_downloaded_init_data());
}

#[test]
fn download_completes_after_the_first_quiet_gap() {
    let mut p = ContinuumProtocol::new();
    p.on_receiving_data_started(1000);
    let note_on = [0x90, 60, 64];
    // Before six seconds, gaps do not count.
    assert_eq!(p.on_message(&note_on, 2000, PITCH_TABLE), vec![]);
    assert_eq!(p.on_message(&note_on, 6999, PITCH_TABLE), vec![]);
    assert!(!p.state().is_monitoring_download);
    // The first message at least six seconds on starts the monitoring.
    assert_eq!(p.on_message(&note_on, 7000, PITCH_TABLE), vec![]);
    assert!(p.state().is_monitoring_download);
    // Gaps under 200 ms do not complete it.
    assert_eq!(p.on_message(&note_on, 7199, PITCH_TABLE), vec![]);
    assert_eq!(p.on_message(&note_on, 7300, PITCH_TABLE), vec![]);
    assert!(!p.has_downloaded_init_data());
    // A 200 ms gap does, once.
    assert_eq!(p.on_message(&note_on, 7500, PITCH_TABLE), vec![ProtocolEvent::DownloadCompleted]);
    assert!(p.has_downloaded_init_data());
    assert_eq!(p.on_message(&note_on, 8000, PITCH_TABLE), vec![]);
}
