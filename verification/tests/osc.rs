use pitchgrid_continuum::osc::{
    is_tuning_args, listening_port_from_setting, message_kind, tuning_args, Osc, OscArg, OscEvent,
    OscMessageKind, TuningArgs, HEARTBEAT_ADDR, TUNING_ADDR,
};

fn tuning_message_args() -> Vec<OscArg> {
    vec![
        OscArg::Int(2),
        OscArg::Float(440.0f32.to_bits()),
        OscArg::Float(1.0f32.to_bits()),
        OscArg::Float(0.5f32.to_bits()),
        OscArg::Float(0.0f32.to_bits()),
        OscArg::Int(12),
        OscArg::Int(5),
        OscArg::Int(2),
    ]
}

#[test]
fn listening_ports_exclude_pitchgrids_own() {
    assert_eq!(Osc::listening_ports(),
        vec![34560, 34561, 34563, 34564, 34565, 34566, 34567, 34568, 34569, 34570]);
    assert_eq!(Osc::default_listening_port(), 34561);
}

#[test]
fn listening_port_index_round_trip() {
    for (index, port) in Osc::listening_ports().into_iter().enumerate() {
        let mut osc = Osc::new();
        assert!(!osc.set_listening_port(port));
        assert_eq!(osc.listening_port(), port);
        assert_eq!(osc.listening_port_index(), index);
    }
    let mut osc = Osc::new();
    osc.set_listening_port(34562);
    assert_eq!(osc.listening_port_index(), 0);
}

#[test]
fn listening_port_setting_falls_back_to_the_default() {
    assert_eq!(listening_port_from_setting(34565), 34565);
    assert_eq!(listening_port_from_setting(34562), 34561);
    assert_eq!(listening_port_from_setting(0), 34561);
    assert_eq!(listening_port_from_setting(34571), 34561);
}

#[test]
fn heartbeat_message_bytes() {
    let mut osc = Osc::new();
    osc.set_listening_port(34561);
    let mut expected: Vec<u8> = b"/pitchgrid/heartbeat".to_vec();
    expected.extend_from_slice(&[0, 0, 0, 0]);
    expected.extend_from_slice(b",ii\0");
    expected.extend_from_slice(&[0, 0, 0, 1]);
    expected.extend_from_slice(&[0, 0, 0x87, 0x01]);
    assert_eq!(osc.heartbeat_message(), expected);
}

#[test]
fn heartbeat_carries_the_listening_port() {
    let mut osc = Osc::new();
    osc.set_listening_port(34570);
    let bytes = osc.heartbeat_message();
    assert_eq!(&bytes[bytes.len() - 2..], &[0x87, 0x0A]);
}

#[test]
fn message_kinds() {
    assert_eq!(message_kind(HEARTBEAT_ADDR), OscMessageKind::Heartbeat);
    assert_eq!(message_kind(TUNING_ADDR), OscMessageKind::Tuning);
    assert_eq!(message_kind("/pitchgrid/plugin/spectrum"), OscMessageKind::Ignored);
    assert_eq!(message_kind("/pitchgrid/plugin/note_off"), OscMessageKind::Ignored);
    assert_eq!(message_kind("/pitchgrid/plugin/tuning/"), OscMessageKind::Unknown);
    assert_eq!(message_kind(""), OscMessageKind::Unknown);
}

#[test]
fn tuning_arguments() {
    let args = tuning_message_args();
    assert!(is_tuning_args(&args));
    assert_eq!(tuning_args(&args), Some(TuningArgs {
        mode: 2,
        root_freq_bits: 440.0f32.to_bits(),
        stretch_bits: 1.0f32.to_bits(),
        skew_bits: 0.5f32.to_bits(),
        mode_offset_bits: 0.0f32.to_bits(),
        steps: 12,
        mos_a: 5,
        mos_b: 2,
    }));
    let mut short = args.clone();
    short.pop();
    assert!(!is_tuning_args(&short));
    assert_eq!(tuning_args(&short), None);
    let mut wrong = args.clone();
    wrong[1] = OscArg::Int(440);
    assert!(!is_tuning_args(&wrong));
    assert_eq!(tuning_args(&wrong), None);
}

#[test]
fn first_tuning_connects_pitchgrid() {
    let mut osc = Osc::new();
    osc.start();
    let events = osc.on_message(TUNING_ADDR, &tuning_message_args(), 100);
    assert_eq!(events, vec![OscEvent::PitchGridConnectedChanged, OscEvent::TuningReceived]);
    assert!(osc.is_pitchgrid_connected());
    let events = osc.on_message(TUNING_ADDR, &tuning_message_args(), 200);
    assert_eq!(events, vec![OscEvent::TuningReceived]);
}

#[test]
fn heartbeats_acknowledge_without_connecting() {
    let mut osc = Osc::new();
    osc.start();
    assert!(osc.on_message(HEARTBEAT_ADDR, &vec![OscArg::Int(1)], 100).is_empty());
    assert!(!osc.is_pitchgrid_connected());
    // Acknowledged, so the monitor does not report PitchGrid as never connected.
    assert!(osc.monitor_step(200).is_empty());
}

#[test]
fn monitor_reports_no_connection_once() {
    let mut osc = Osc::new();
    osc.start();
    assert_eq!(osc.monitor_step(0), vec![OscEvent::PitchGridConnectedChanged]);
    assert!(osc.monitor_step(500).is_empty());
}

#[test]
fn monitor_reports_a_lost_connection_after_two_seconds() {
    let mut osc = Osc::new();
    osc.start();
    osc.on_message(TUNING_ADDR, &tuning_message_args(), 1000);
    assert!(osc.monitor_step(3000).is_empty());
    assert!(osc.is_pitchgrid_connected());
    assert_eq!(osc.monitor_step(3001), vec![OscEvent::PitchGridConnectedChanged]);
    assert!(!osc.is_pitchgrid_connected());
    assert!(osc.monitor_step(4000).is_empty());
}

#[test]
fn changing_the_port_restarts_a_running_link() {
    let mut osc = Osc::new();
    osc.start();
    osc.on_message(TUNING_ADDR, &tuning_message_args(), 0);
    assert!(osc.set_listening_port(34565));
    assert!(osc.is_running());
    assert!(!osc.is_pitchgrid_connected());
    assert_eq!(osc.listening_port(), 34565);
    osc.stop();
    assert!(!osc.is_running());
}
