use pitchgrid_continuum::device_strategy::{DeviceStrategy, InputStrategy, OutputStrategy};
use pitchgrid_continuum::error_notifier::ErrorNotifier;
use pitchgrid_continuum::global::{MessageType, PortType};
use pitchgrid_continuum::midi_manager::{MidiInputState, MidiManager};
use pitchgrid_continuum::midi_ports::{IIo, Io, IoDevice};
use pitchgrid_continuum::presentation::{StatusMessage, DEVICE_NONE};
use pitchgrid_continuum::release_info::{GitHubRelease, Platform, ReleaseInfo};
use pitchgrid_continuum::settings::{ISettings, Settings};
use pitchgrid_continuum::system_paths::{PathFinder, SystemPathFinder, CONFIG_FOLDER_NOT_FOUND};
use pitchgrid_continuum::text::{ends_with, starts_with, str_eq, strip_prefix, strip_suffix};
use pitchgrid_continuum::tuning_params::FormattedTuningParams;
use pitchgrid_continuum::tuning_update_watchdog::{report_timeout, TimeoutReport, TuningUpdateWatchdog};
use pitchgrid_continuum::version_checker::VersionChecker;

fn release(tag: &str, name: Option<&str>) -> GitHubRelease {
    GitHubRelease { tag_name: tag.to_string(), name: name.map(|n| n.to_string()) }
}

#[test]
fn text_helpers() {
    assert!(str_eq("abc", "abc"));
    assert!(!str_eq("abc", "abd"));
    assert!(starts_with("v1.2.3", "v"));
    assert!(!starts_with("1.2.3", "v"));
    assert!(ends_with("App 1.0 (macOS)", " (macOS)"));
    assert!(!ends_with("macOS", " (macOS)"));
    assert_eq!(strip_prefix("v1.2.3", "v"), Some("1.2.3".to_string()));
    assert_eq!(strip_prefix("1.2.3", "v"), None);
    assert_eq!(strip_suffix("owner/repo/releases", "/releases"), Some("owner/repo".to_string()));
    assert_eq!(strip_suffix("owner/repo", "/releases"), None);
}

#[test]
fn releases_api_url_from_the_releases_page() {
    assert_eq!(
        ReleaseInfo::github_releases_api_url("https://github.com/owner/repo/releases"),
        Some("https://api.github.com/repos/owner/repo/releases".to_string()));
    assert_eq!(ReleaseInfo::github_releases_api_url("https://gitlab.com/owner/repo/releases"), None);
    assert_eq!(ReleaseInfo::github_releases_api_url("https://github.com/owner/repo"), None);
}

#[test]
fn platform_release_name_suffixes() {
    assert_eq!(ReleaseInfo::current_platform_release_name_suffix(Platform::Windows64), Some(" (64-bit Windows)"));
    assert_eq!(ReleaseInfo::current_platform_release_name_suffix(Platform::MacOs), Some(" (macOS)"));
    assert_eq!(ReleaseInfo::current_platform_release_name_suffix(Platform::Other), None);
}

#[test]
fn latest_version_for_the_platform() {
    let releases = vec![
        release("v2.0.0", Some("PCB 2.0.0 (macOS)")),
        release("v1.9.0", Some("PCB 1.9.0 (64-bit Windows)")),
        release("v1.8.0", Some("PCB 1.8.0 (64-bit Windows)")),
    ];
    assert_eq!(ReleaseInfo::latest_version_for_platform(&releases, " (64-bit Windows)"), Some("1.9.0".to_string()));
    assert_eq!(ReleaseInfo::latest_version_for_platform(&releases, " (macOS)"), Some("2.0.0".to_string()));
    assert_eq!(ReleaseInfo::latest_version_for_platform(&releases, " (Linux)"), None);
}

#[test]
fn latest_version_search_passes_over_unnamed_releases() {
    let unnamed_first = vec![release("v2.0.0", None), release("v1.0", Some("PCB 1.0 (macOS)"))];
    assert_eq!(ReleaseInfo::latest_version_for_platform(&unnamed_first, " (macOS)"), Some("1.0".to_string()));
    assert_eq!(ReleaseInfo::latest_version_for_platform(&vec![release("v2.0.0", None)], " (macOS)"), None);
}

#[test]
fn latest_version_needs_a_v_tag() {
    let no_v = vec![release("2.0.0", Some("PCB (macOS)"))];
    assert_eq!(ReleaseInfo::latest_version_for_platform(&no_v, " (macOS)"), None);
}

#[test]
fn new_version_is_offered_when_later() {
    let checker = VersionChecker::new("1.2.0".to_string());
    assert!(checker.can_check());
    assert_eq!(checker.check_for_new_version(Some("1.3.0".to_string()), ""), Some("1.3.0".to_string()));
    assert_eq!(checker.check_for_new_version(Some("1.10.0".to_string()), ""), Some("1.10.0".to_string()));
}

#[test]
fn no_new_version_when_not_later_or_ignored() {
    let checker = VersionChecker::new("1.2.0".to_string());
    assert_eq!(checker.check_for_new_version(Some("1.2.0".to_string()), ""), None);
    assert_eq!(checker.check_for_new_version(Some("1.1.9".to_string()), ""), None);
    assert_eq!(checker.check_for_new_version(None, ""), None);
    assert_eq!(checker.check_for_new_version(Some("1.3.0".to_string()), "1.3.0"), None);
    assert_eq!(checker.check_for_new_version(Some("1.4.0".to_string()), "1.3.0"), Some("1.4.0".to_string()));
}

#[test]
fn settings_defaults_and_setters() {
    let mut s = Settings::new();
    assert_eq!(s.main_window_x(), 0);
    assert_eq!(s.midi_input_device(), "");
    assert!(s.override_rounding_initial());
    assert!(s.override_rounding_rate());
    assert_eq!(s.rounding_rate(), 127);
    s.set_midi_output_device("Editor");
    s.set_osc_listening_port(34563);
    assert_eq!(s.midi_output_device(), "Editor");
    assert_eq!(s.osc_listening_port(), 34563);
    let mut restored = Settings::new();
    restored.restore_from(s);
    assert_eq!(restored.midi_output_device(), "Editor");
}

#[test]
fn device_strategies() {
    let input = InputStrategy::new();
    let output = OutputStrategy::new();
    assert_eq!(input.device_type(), PortType::Input);
    assert_eq!(output.device_type(), PortType::Output);
    assert_eq!(input.msg_connected("X"), "Connected MIDI input device X");
    assert_eq!(output.msg_cannot_connect("Y"), "Cannot connect MIDI output device Y. The device may be in use.");
    assert_eq!(input.msg_not_selected(), "No MIDI input device selected.");
    assert_eq!(output.msg_refreshed_reconnect(), "Refreshed MIDI output devices. You must (re)connect.");
    let mut settings = Settings::new();
    output.set_device_setting(&mut settings, "Out 2");
    assert_eq!(output.device_setting(&settings), "Out 2");
    assert_eq!(input.device_setting(&settings), "");
}

#[test]
fn status_messages() {
    assert_eq!(StatusMessage::InstrumentTuningUpdated.text(), "Instrument tuning updated");
    assert_eq!(StatusMessage::InstrumentTuningUpdated.message_type(), MessageType::Info);
    assert!(StatusMessage::InstrumentTuningUpdated.is_pitchgrid_status());
    assert_eq!(StatusMessage::PitchgridNotConnected.message_type(), MessageType::Error);
    assert_eq!(StatusMessage::InstrumentNotConnected.message_type(), MessageType::Warning);
    assert!(!StatusMessage::InstrumentNotConnected.is_pitchgrid_status());
    assert_eq!(StatusMessage::TuningUpdateNotConfirmed.message_type(), MessageType::Error);
    assert!(!StatusMessage::TuningUpdateNotConfirmed.is_pitchgrid_status());
    assert_eq!(StatusMessage::WaitingForDataDownload.text(),
        "Waiting (maximum 6 seconds) for possible initial data download from instrument...");
    assert_eq!(DEVICE_NONE, "[None]");
}

#[test]
fn watchdog_start_and_cancel() {
    let mut w = TuningUpdateWatchdog::new(2000);
    assert!(!w.is_awaiting());
    assert!(!w.cancel());
    w.start();
    assert!(w.is_awaiting());
    assert!(w.cancel());
    assert!(!w.is_awaiting());
    assert_eq!(w.timeout_millis(), 2000);
}

#[test]
fn timeout_report_prefers_a_send_error() {
    let mut n = ErrorNotifier::new();
    assert_eq!(report_timeout(&mut n), TimeoutReport::UpdateNotConfirmed);
    n.notify_error();
    assert!(n.has_error());
    assert_eq!(report_timeout(&mut n), TimeoutReport::MidiSendError);
    assert!(!n.has_error());
    n.notify_error();
    n.clear_error();
    assert!(!n.has_error());
}

#[test]
fn midi_manager_connection_lifecycle() {
    let mut m = MidiManager::new();
    assert!(!m.connect_device(PortType::Input, true));
    assert!(m.connect_device(PortType::Output, true));
    assert!(m.are_devices_connected());
    m.start_instrument_connection_monitor(0);
    assert!(m.record_message(100));
    assert!(!m.record_message(200));
    assert!(m.is_connected_and_receiving());
    // More than two seconds without data: disconnected.
    assert!(!m.monitor_step(2200));
    assert!(m.monitor_step(2201));
    assert!(!m.is_receiving_data());
    assert!(m.refresh_devices(PortType::Output));
    assert!(!m.is_output_device_connected());
    m.close();
    assert!(!m.are_devices_connected());
}

#[test]
fn midi_monitor_reports_an_instrument_that_never_sends_once() {
    let mut m = MidiManager::new();
    m.start_instrument_connection_monitor(1000);
    assert!(!m.monitor_step(3000));
    assert!(m.monitor_step(3001));
    assert!(!m.monitor_step(5000));
    assert!(m.stop_instrument_connection_monitor());
    assert!(!m.stop_instrument_connection_monitor());
}

#[test]
fn midi_input_state_records_the_first_message() {
    let mut s = MidiInputState::new();
    assert!(s.record_message(5));
    assert_eq!(s.last_message_received_ms, Some(5));
    assert!(!s.record_message(6));
}

#[test]
fn device_list_selects_the_remembered_device() {
    let mut io: Io<u32> = Io::new();
    assert_eq!(io.device_index(), None);
    io.populate_devices(vec!["A".to_string(), "B".to_string(), "B".to_string()], vec![10, 11, 12], "B");
    assert_eq!(io.device_index(), Some(1));
    assert_eq!(IIo::device_name(&io), Some("B".to_string()));
    assert_eq!(IIo::device_names(&io), vec!["A".to_string(), "B".to_string(), "B".to_string()]);
    let selected = io.device().unwrap();
    assert_eq!(IoDevice::index(selected), 1);
    assert_eq!(*selected.midi_port(), 11);
    assert_eq!(selected.device_name(), "B");
    io.set_port(0);
    assert_eq!(io.device_index(), Some(0));
    io.set_port(3);
    assert_eq!(io.device_index(), None);
    io.set_port(2);
    io.set_port_to_none();
    assert!(io.device().is_none());
    io.populate_devices(vec!["C".to_string()], vec![1], "B");
    assert_eq!(io.device_index(), None);
    assert_eq!(io.ports().len(), 1);
}

#[test]
fn config_folder_error_text() {
    match SystemPathFinder::new().config_folder_path() {
        Ok(path) => assert!(!path.is_empty()),
        Err(e) => assert_eq!(e, CONFIG_FOLDER_NOT_FOUND),
    }
    assert_eq!(CONFIG_FOLDER_NOT_FOUND, "A config folder path cannot be found.");
}

#[test]
fn blank_formatted_tuning_params() {
    let p = FormattedTuningParams::default();
    assert!(p.root_freq.is_empty() && p.stretch.is_empty() && p.skew.is_empty());
    assert!(p.mode_offset.is_empty() && p.steps.is_empty());
    assert!(p.mos_large_step_count.is_empty() && p.mos_small_step_count.is_empty());
}

#[test]
fn two_and_a_half_seconds_of_silence_is_a_disconnection() {
    let mut m = MidiManager::new();
    m.start_instrument_connection_monitor(0);
    m.record_message(1000);
    assert!(m.monitor_step(3500));
    assert!(!m.is_receiving_data());
}

#[test]
fn an_error_is_outstanding_exactly_after_a_notification() {
    let mut n = ErrorNotifier::new();
    assert!(!n.has_error());
    n.notify_error();
    n.notify_error();
    assert!(n.has_error());
    n.clear_error();
    assert!(!n.has_error());
    n.clear_error();
    n.notify_error();
    assert!(n.has_error());
}
