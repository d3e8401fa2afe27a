//! The presenter: it coordinates the tuner, the Continuum protocol, the OSC link with PitchGrid,
//! the MIDI manager and the settings, and decides what the player is shown. Each handler takes
//! an event and returns a `Reaction`: the actions for the application to perform (show, send,
//! start or stop a timer or a link) and the protocol events that the handler raised, which the
//! application hands back, one by one, once the handler has returned.

use vstd::prelude::*;
use crate::continuum_protocol::{
    spec_on_message as spec_protocol_on_message, ContinuumProtocol, DownloadStatus, ProtocolState,
};
use crate::device_strategy::{
    spec_device_setting, spec_msg_cannot_connect, spec_msg_connect, spec_msg_connected,
    spec_msg_refreshed_reconnect, spec_with_device_setting, DeviceStrategy, InputStrategy,
    OutputStrategy,
};
use crate::error_notifier::ErrorNotifier;
use crate::global::{MessageType, PortType};
use crate::i_continuum_protocol::{IContinuumProtocol, ProtocolEvent};
use crate::i_midi_manager::MidiInputListener;
use crate::midi_codec::spec_parse_live_event;
use crate::midi_command::MidiCommand;
use crate::midi_manager::{
    spec_devices_connected, spec_monitor_step as spec_midi_monitor_step, spec_monitor_stopped,
    spec_with_device, MidiInputState, MidiManager, MidiManagerState,
};
use crate::osc::{
    decode_udp_message, listening_port_from_setting, spec_decode_message, spec_listening_port_index,
    spec_listening_ports, spec_message_kind, spec_monitor_step as spec_osc_monitor_step,
    spec_on_message as spec_osc_on_message, spec_tuning_args, tuning_args, Osc, OscArg, OscEvent,
    OscMessageKind, OscState, TuningArgs,
};
use crate::presentation::StatusMessage;
use crate::settings::{ISettings, Settings, SettingsModel};
use crate::tuner::{
    spec_on_tuning_updated, spec_override_note_no, spec_pitch_table_index, spec_pitch_tables,
    spec_signalled, spec_tune, spec_tuner_wf, spec_tuning_update_commands, Key, Tuner, TunerFlags,
    TunerModel,
};
use crate::tuning_update_watchdog::{report_timeout, TimeoutReport, TuningUpdateWatchdog};

verus! {

/// Something for the application to do.
#[derive(Debug, PartialEq, Eq)]
pub enum PresenterAction {
    /// Show a status message.
    Show(StatusMessage),
    /// Show a message whose text is not fixed.
    ShowMessage { text: String, message_type: MessageType },
    /// Show the current tuning parameters, or blank them (`blank`), marking whether the root
    /// frequency is overridden.
    ShowTuning { blank: bool, is_root_freq_overridden: bool },
    SetMainWindowPosition { x: i32, y: i32 },
    SetSelectedOscListeningPortIndex(usize),
    SetSelectedPitchTableIndex(usize),
    SetOverrideRoundingInitial(bool),
    SetOverrideRoundingRate(bool),
    SetRoundingRate(u8),
    /// Show the device `name` as connected.
    ConnectedDevice { device_type: PortType, name: String },
    /// Show that no device of the type is connected.
    NoDeviceConnected(PortType),
    /// Draw the player's attention to the device selector of the type.
    FocusDevice(PortType),
    /// Show the listed device `index` of the type as selected.
    SelectDevice { device_type: PortType, index: usize },
    /// Connect the listed device `index` of the type, if it is listed (after disconnecting the
    /// previous device of the type), and hand the outcome to `on_device_connection`.
    ConnectDevice { device_type: PortType, index: usize },
    /// List the devices of the type again, selecting the one named `device_name` if listed.
    RefreshDeviceList { device_type: PortType, device_name: String },
    /// Show the list of devices of the type.
    SetDevicesModel(PortType),
    /// Disconnect both MIDI devices.
    CloseDevices,
    /// Start the OSC link's heartbeat, listener and monitor on the listening port.
    StartOsc,
    /// Stop the OSC link.
    StopOsc,
    /// Start checking the instrument connection at intervals (see `midi_monitor_step`).
    StartConnectionMonitor,
    StopConnectionMonitor,
    /// In `MIDI_WAIT_SECS` seconds, call `reception_check`.
    ScheduleReceptionCheck,
    /// Start the timer for the tuning update confirmation (see `on_tuning_update_timeout`).
    StartWatchdog,
    /// Stop the timer for the tuning update confirmation.
    CancelWatchdog,
    /// Send these commands to the instrument, in order.
    Send(Vec<MidiCommand>),
    /// Calculate the keys of the current tuning again (the root frequency override has changed)
    /// and hand them to `retune`.
    Retune,
    /// Tell the player that sending MIDI to the instrument has failed.
    ShowMidiSendError,
}

/// An action as the contracts see it.
pub enum ActionView {
    Show(StatusMessage),
    ShowMessage { text: Seq<char>, message_type: MessageType },
    ShowTuning { blank: bool, is_root_freq_overridden: bool },
    SetMainWindowPosition { x: i32, y: i32 },
    SetSelectedOscListeningPortIndex(usize),
    SetSelectedPitchTableIndex(usize),
    SetOverrideRoundingInitial(bool),
    SetOverrideRoundingRate(bool),
    SetRoundingRate(u8),
    ConnectedDevice { device_type: PortType, name: Seq<char> },
    NoDeviceConnected(PortType),
    FocusDevice(PortType),
    SelectDevice { device_type: PortType, index: usize },
    ConnectDevice { device_type: PortType, index: usize },
    RefreshDeviceList { device_type: PortType, device_name: Seq<char> },
    SetDevicesModel(PortType),
    CloseDevices,
    StartOsc,
    StopOsc,
    StartConnectionMonitor,
    StopConnectionMonitor,
    ScheduleReceptionCheck,
    StartWatchdog,
    CancelWatchdog,
    Send(Seq<MidiCommand>),
    Retune,
    ShowMidiSendError,
}

impl View for PresenterAction {
    type V = ActionView;

    open spec fn view(&self) -> ActionView {
        match self {
            PresenterAction::Show(m) => ActionView::Show(*m),
            PresenterAction::ShowMessage { text, message_type } =>
                ActionView::ShowMessage { text: text@, message_type: *message_type },
            PresenterAction::ShowTuning { blank, is_root_freq_overridden } =>
                ActionView::ShowTuning { blank: *blank, is_root_freq_overridden: *is_root_freq_overridden },
            PresenterAction::SetMainWindowPosition { x, y } =>
                ActionView::SetMainWindowPosition { x: *x, y: *y },
            PresenterAction::SetSelectedOscListeningPortIndex(i) =>
                ActionView::SetSelectedOscListeningPortIndex(*i),
            PresenterAction::SetSelectedPitchTableIndex(i) => ActionView::SetSelectedPitchTableIndex(*i),
            PresenterAction::SetOverrideRoundingInitial(b) => ActionView::SetOverrideRoundingInitial(*b),
            PresenterAction::SetOverrideRoundingRate(b) => ActionView::SetOverrideRoundingRate(*b),
            PresenterAction::SetRoundingRate(r) => ActionView::SetRoundingRate(*r),
            PresenterAction::ConnectedDevice { device_type, name } =>
                ActionView::ConnectedDevice { device_type: *device_type, name: name@ },
            PresenterAction::NoDeviceConnected(t) => ActionView::NoDeviceConnected(*t),
            PresenterAction::FocusDevice(t) => ActionView::FocusDevice(*t),
            PresenterAction::SelectDevice { device_type, index } =>
                ActionView::SelectDevice { device_type: *device_type, index: *index },
            PresenterAction::ConnectDevice { device_type, index } =>
                ActionView::ConnectDevice { device_type: *device_type, index: *index },
            PresenterAction::RefreshDeviceList { device_type, device_name } =>
                ActionView::RefreshDeviceList { device_type: *device_type, device_name: device_name@ },
            PresenterAction::SetDevicesModel(t) => ActionView::SetDevicesModel(*t),
            PresenterAction::CloseDevices => ActionView::CloseDevices,
            PresenterAction::StartOsc => ActionView::StartOsc,
            PresenterAction::StopOsc => ActionView::StopOsc,
            PresenterAction::StartConnectionMonitor => ActionView::StartConnectionMonitor,
            PresenterAction::StopConnectionMonitor => ActionView::StopConnectionMonitor,
            PresenterAction::ScheduleReceptionCheck => ActionView::ScheduleReceptionCheck,
            PresenterAction::StartWatchdog => ActionView::StartWatchdog,
            PresenterAction::CancelWatchdog => ActionView::CancelWatchdog,
            PresenterAction::Send(commands) => ActionView::Send(commands@),
            PresenterAction::Retune => ActionView::Retune,
            PresenterAction::ShowMidiSendError => ActionView::ShowMidiSendError,
        }
    }
}

/// What a datagram from PitchGrid gave: the events of the OSC link, and the tuning it delivered,
/// if any.
#[derive(Debug)]
pub struct OscReceipt {
    pub events: Vec<OscEvent>,
    pub tuning: Option<TuningArgs>,
}

/// What a handler returns: the actions, in order, and the protocol events raised, in order.
#[derive(Debug)]
pub struct Reaction {
    pub actions: Vec<PresenterAction>,
    pub events: Vec<ProtocolEvent>,
}

/// A reaction as the contracts see it.
pub struct ReactionView {
    pub actions: Seq<ActionView>,
    pub events: Seq<ProtocolEvent>,
}

impl View for Reaction {
    type V = ReactionView;

    open spec fn view(&self) -> ReactionView {
        ReactionView {
            actions: self.actions@.map_values(|a: PresenterAction| a@),
            events: self.events@,
        }
    }
}

impl Reaction {
    pub fn new() -> (r: Self)
        ensures
            r@.actions == Seq::<ActionView>::empty(),
            r@.events == Seq::<ProtocolEvent>::empty(),
    {
        let r = Reaction { actions: Vec::new(), events: Vec::new() };
        assert(r@.actions =~= Seq::<ActionView>::empty());
        r
    }

    /// Appends an action.
    pub fn act(&mut self, action: PresenterAction)
        ensures
            final(self)@.actions == old(self)@.actions.push(action@),
            final(self)@.events == old(self)@.events,
    {
        let ghost a = action@;
        self.actions.push(action);
        assert(self@.actions =~= old(self)@.actions.push(a));
    }

    /// Appends a status message.
    pub fn show(&mut self, message: StatusMessage)
        ensures
            final(self)@.actions == old(self)@.actions.push(ActionView::Show(message)),
            final(self)@.events == old(self)@.events,
    {
        self.act(PresenterAction::Show(message));
    }

    /// Appends raised events.
    pub fn raise(&mut self, events: Vec<ProtocolEvent>)
        ensures
            final(self)@.actions == old(self)@.actions,
            final(self)@.events == old(self)@.events + events@,
    {
        let mut events = events;
        self.events.append(&mut events);
    }
}

/// The abstract state of the presenter and the components it coordinates.
pub struct PresenterModel {
    pub tuner: TunerModel,
    pub protocol: ProtocolState,
    pub osc: OscState,
    pub midi: MidiManagerState,
    pub settings: SettingsModel,
    /// A tuning update confirmation is awaited.
    pub is_awaiting_confirmation: bool,
    /// The tuning update in flight resends the tuning for a newly selected instrument preset.
    pub is_preset_reselect: bool,
}

/// The presenter's invariant: the tuner's, and PitchGrid counts as connected only while the OSC
/// link runs.
pub open spec fn spec_presenter_wf(m: PresenterModel) -> bool {
    &&& spec_tuner_wf(m.tuner)
    &&& (!m.osc.is_running ==> !m.osc.is_pitchgrid_connected)
}

/// Both devices are connected and data is arriving from the instrument.
pub open spec fn spec_connected_and_receiving(m: MidiManagerState) -> bool {
    spec_devices_connected(m) && m.input_state.is_receiving_data
}

/// Showing the current tuning (blank without tuning data).
pub open spec fn spec_show_tuning(t: TunerModel) -> ActionView {
    ActionView::ShowTuning {
        blank: t.keys.len() == 0,
        is_root_freq_overridden: t.flags.root_freq_override_note_no != 0,
    }
}

/// The OSC link once stopped.
pub open spec fn spec_osc_stopped(o: OscState) -> OscState {
    OscState { is_pitchgrid_connected: false, last_ack_ms: None, is_running: false, ..o }
}

/// The OSC link once started.
pub open spec fn spec_osc_started(o: OscState) -> OscState {
    OscState { is_running: true, has_reported_not_connected: false, ..o }
}

/// The tuner once its tuning data has been removed.
pub open spec fn spec_tuner_cleared(t: TunerModel) -> TunerModel {
    TunerModel {
        flags: TunerFlags { is_already_updating: false, is_another_update_pending: false, ..t.flags },
        keys: Seq::empty(),
    }
}

/// Stopping the OSC link: it is stopped, the tuning data is removed and blanked, and the player is
/// told why tunings cannot be updated, if the instrument is not connected or not sending.
pub open spec fn spec_stop_osc_and_show_status(m: PresenterModel) -> (PresenterModel, Seq<ActionView>) {
    let m1 = PresenterModel { osc: spec_osc_stopped(m.osc), tuner: spec_tuner_cleared(m.tuner), ..m };
    let status = if !spec_devices_connected(m.midi) {
        seq![ActionView::Show(StatusMessage::CannotUpdateTuningConnect)]
    } else if !m.midi.input_state.is_receiving_data {
        seq![ActionView::Show(StatusMessage::CannotUpdateTuningLost)]
    } else {
        seq![]
    };
    (m1, seq![ActionView::StopOsc, spec_show_tuning(m1.tuner)] + status)
}

/// The effect of a tuning update being sent: the protocol awaits its confirmation.
pub open spec fn spec_sent(m: PresenterModel, sent: bool, commands: Seq<MidiCommand>) -> (PresenterModel, ReactionView) {
    if sent {
        (PresenterModel { protocol: spec_signalled(m.protocol), ..m },
            ReactionView { actions: seq![ActionView::Send(commands)], events: seq![ProtocolEvent::UpdatingTuning] })
    } else {
        (m, ReactionView { actions: seq![], events: seq![] })
    }
}

/// A tuning (its keys) handed to the tuner: see `spec_tune`.
pub open spec fn spec_presenter_tune(m: PresenterModel, keys: Seq<Key>) -> (PresenterModel, ReactionView) {
    let (t, sent) = spec_tune(m.tuner, keys);
    spec_sent(PresenterModel { tuner: t, ..m }, sent, spec_tuning_update_commands(m.tuner.flags, keys, true))
}

/// Only actions.
pub open spec fn spec_acts(actions: Seq<ActionView>) -> ReactionView {
    ReactionView { actions, events: seq![] }
}

/// The initial data download has completed: the OSC link is opened if the instrument is
/// connected and sending and the link is not running yet.
pub open spec fn spec_on_download_completed(m: PresenterModel) -> (PresenterModel, ReactionView) {
    if spec_connected_and_receiving(m.midi) && !m.osc.is_running {
        (PresenterModel { osc: spec_osc_started(m.osc), ..m },
            spec_acts(seq![ActionView::StartOsc, ActionView::Show(StatusMessage::OpeningPitchgridConnection)]))
    } else {
        (m, spec_acts(seq![]))
    }
}

/// The devices have become connected, or one has dropped: in the latter case the OSC link, if
/// running, is stopped, and the player is told.
pub open spec fn spec_on_devices_connected_changed(m: PresenterModel) -> (PresenterModel, ReactionView) {
    if spec_devices_connected(m.midi) {
        (m, spec_acts(seq![]))
    } else if m.osc.is_running {
        let (m1, a) = spec_stop_osc_and_show_status(m);
        (m1, spec_acts(a + seq![
            ActionView::Show(StatusMessage::InstrumentDisconnected),
            ActionView::Show(StatusMessage::PitchgridConnectionClosed)]))
    } else {
        (m, spec_acts(seq![ActionView::Show(StatusMessage::PitchgridConnectionClosed)]))
    }
}

/// The player has selected a preset on the instrument: if a tuning has been sent, it is sent again
/// for the new preset (without uploading the pitch table), as a preset reselect.
pub open spec fn spec_on_new_preset_selected(m: PresenterModel) -> (PresenterModel, ReactionView) {
    if m.tuner.keys.len() == 0 {
        (m, spec_acts(seq![]))
    } else {
        spec_sent(PresenterModel { is_preset_reselect: true, ..m }, true,
            spec_tuning_update_commands(m.tuner.flags, m.tuner.keys, false))
    }
}

/// Data has stopped arriving from the instrument (or never started).
pub open spec fn spec_on_receiving_data_stopped(m: PresenterModel) -> (PresenterModel, ReactionView) {
    let (m1, a) = if m.osc.is_running { spec_stop_osc_and_show_status(m) } else { (m, seq![]) };
    let b = if spec_devices_connected(m.midi) {
        seq![ActionView::Show(StatusMessage::InstrumentNotConnected)]
    } else {
        seq![]
    };
    (m1, spec_acts(a + b))
}

/// The instrument has confirmed a tuning update: the confirmation timer is stopped, the tuner
/// sends any waiting tuning (see `spec_on_tuning_updated`), the tuning is shown, and, with tuning
/// data, the player is told which update has been confirmed.
pub open spec fn spec_on_tuning_updated_presenter(m: PresenterModel) -> (PresenterModel, ReactionView) {
    let a0: Seq<ActionView> = if m.is_awaiting_confirmation { seq![ActionView::CancelWatchdog] } else { seq![] };
    let (t, sent) = spec_on_tuning_updated(m.tuner);
    let (m1, r) = spec_sent(PresenterModel { tuner: t, is_awaiting_confirmation: false, ..m }, sent,
        spec_tuning_update_commands(m.tuner.flags, m.tuner.keys, true));
    let a1 = a0 + r.actions + seq![spec_show_tuning(t)];
    if t.keys.len() == 0 {
        (m1, ReactionView { actions: a1, events: r.events })
    } else if m.is_preset_reselect {
        (PresenterModel { is_preset_reselect: false, ..m1 },
            ReactionView { actions: a1.push(ActionView::Show(StatusMessage::PresetTuningLoaded)), events: r.events })
    } else {
        (m1, ReactionView { actions: a1.push(ActionView::Show(StatusMessage::InstrumentTuningUpdated)), events: r.events })
    }
}

/// PitchGrid has connected or disconnected.
pub open spec fn spec_on_pitchgrid_connected_changed(m: PresenterModel) -> (PresenterModel, ReactionView) {
    if m.osc.is_pitchgrid_connected {
        (m, spec_acts(seq![spec_show_tuning(m.tuner),
            ActionView::Show(StatusMessage::PitchgridConnected),
            ActionView::Show(StatusMessage::PitchgridAndInstrumentConnected)]))
    } else {
        let t = spec_tuner_cleared(m.tuner);
        (PresenterModel { tuner: t, ..m }, spec_acts(seq![spec_show_tuning(t),
            ActionView::Show(StatusMessage::PitchgridNotConnected),
            ActionView::Show(StatusMessage::AwaitingPitchgridConnection)]))
    }
}

/// A tuning has arrived from PitchGrid (its keys): it is sent to the instrument if the instrument
/// is connected and sending (see `spec_presenter_tune`); otherwise the OSC link is stopped.
pub open spec fn spec_on_tuning_received(m: PresenterModel, keys: Seq<Key>) -> (PresenterModel, ReactionView) {
    let m0 = PresenterModel { is_preset_reselect: false, ..m };
    if spec_connected_and_receiving(m.midi) {
        let (m1, r) = spec_presenter_tune(m0, keys);
        (m1, ReactionView {
            actions: seq![ActionView::Show(StatusMessage::UpdatingInstrumentTuning)] + r.actions,
            events: r.events,
        })
    } else {
        let (m1, a) = spec_stop_osc_and_show_status(m0);
        (m1, spec_acts(a))
    }
}

/// Whether a change of the root frequency override is sent to the instrument at once: when the
/// instrument is connected and sending, has completed its initial data download, and PitchGrid is
/// connected.
pub open spec fn spec_override_sent_at_once(m: PresenterModel) -> bool {
    spec_connected_and_receiving(m.midi) && m.protocol.download_status == DownloadStatus::Complete
        && m.osc.is_pitchgrid_connected
}

/// The initial data download has started.
pub open spec fn spec_on_download_started(m: PresenterModel) -> (PresenterModel, ReactionView) {
    (m, spec_acts(seq![ActionView::Show(StatusMessage::AwaitingDataDownload)]))
}

/// Data has started to arrive from the instrument. The output device may not be connected, in
/// which case the request to connect it stays shown.
pub open spec fn spec_on_receiving_data_started(m: PresenterModel) -> (PresenterModel, ReactionView) {
    (m, spec_acts(if spec_devices_connected(m.midi) {
        seq![ActionView::Show(StatusMessage::WaitingForDataDownload)]
    } else {
        seq![]
    }))
}

/// A tuning update is being sent: the confirmation timer is started.
pub open spec fn spec_on_updating_tuning(m: PresenterModel) -> (PresenterModel, ReactionView) {
    (PresenterModel { is_awaiting_confirmation: true, ..m }, spec_acts(seq![ActionView::StartWatchdog]))
}

/// The handling of a protocol event.
pub open spec fn spec_on_protocol_event(m: PresenterModel, e: ProtocolEvent) -> (PresenterModel, ReactionView) {
    match e {
        ProtocolEvent::DownloadCompleted => spec_on_download_completed(m),
        ProtocolEvent::DownloadStarted => spec_on_download_started(m),
        ProtocolEvent::NewPresetSelected => spec_on_new_preset_selected(m),
        ProtocolEvent::DevicesConnectedChanged => spec_on_devices_connected_changed(m),
        ProtocolEvent::ReceivingDataStarted => spec_on_receiving_data_started(m),
        ProtocolEvent::ReceivingDataStopped => spec_on_receiving_data_stopped(m),
        ProtocolEvent::TuningUpdated => spec_on_tuning_updated_presenter(m),
        ProtocolEvent::UpdatingTuning => spec_on_updating_tuning(m),
    }
}

/// The root frequency override is set from choice `index`; it is sent at once (see
/// `spec_override_sent_at_once`), by recalculating a received tuning.
pub open spec fn spec_set_root_freq_override(m: PresenterModel, index: usize) -> (PresenterModel, ReactionView) {
    let send = spec_override_sent_at_once(m);
    let flags = TunerFlags { root_freq_override_note_no: spec_override_note_no(index) as usize, ..m.tuner.flags };
    (PresenterModel { tuner: TunerModel { flags, keys: m.tuner.keys }, ..m },
        spec_acts((if send { seq![ActionView::Show(StatusMessage::UpdatingRootFreqOverride)] } else { seq![] })
            + (if send && m.tuner.keys.len() > 0 { seq![ActionView::Retune] } else { seq![] })))
}

/// The OSC link once its listening port is `port`: a running link is restarted on it.
pub open spec fn spec_osc_with_port(o: OscState, port: u16) -> OscState {
    if o.is_running {
        OscState {
            listening_port: port,
            is_running: true,
            is_pitchgrid_connected: false,
            last_ack_ms: None,
            has_reported_not_connected: false,
        }
    } else {
        OscState { listening_port: port, ..o }
    }
}

/// Restarting a running OSC link.
pub open spec fn spec_osc_bounce(o: OscState) -> Seq<ActionView> {
    if o.is_running { seq![ActionView::StopOsc, ActionView::StartOsc] } else { seq![] }
}

/// The listening port is set from choice `index` and saved.
pub open spec fn spec_set_osc_listening_port(m: PresenterModel, index: usize) -> (PresenterModel, ReactionView) {
    let port = spec_listening_ports()[index as int];
    (PresenterModel {
        osc: spec_osc_with_port(m.osc, port),
        settings: SettingsModel { osc_listening_port: port, ..m.settings },
        ..m
    }, spec_acts(spec_osc_bounce(m.osc)))
}

/// The listening port used for the saved setting.
pub open spec fn spec_port_from_setting(setting: u16) -> u16 {
    if spec_listening_ports().contains(setting) { setting } else { 34561 }
}

/// The pitch table used for the saved setting.
pub open spec fn spec_table_from_setting(setting: u8) -> u8 {
    if spec_pitch_tables().contains(setting) { setting } else { 80 }
}

/// Initialisation from the settings read from the settings file: the devices are listed (each
/// list selecting the remembered device), the listening port and the pitch table are taken from
/// the settings where valid (and otherwise the defaults), the rounding overrides are taken from
/// them, and the view is set up to show them. The devices are then connected step by step (see
/// `next_device_setup`).
pub open spec fn spec_init(m: PresenterModel, s: SettingsModel) -> (PresenterModel, ReactionView) {
    let port = spec_port_from_setting(s.osc_listening_port);
    let table = spec_table_from_setting(s.pitch_table);
    let flags = TunerFlags {
        pitch_table: table,
        override_rounding_initial: s.override_rounding_initial,
        override_rounding_rate: s.override_rounding_rate,
        rounding_rate: s.rounding_rate,
        ..m.tuner.flags
    };
    (PresenterModel {
        settings: s,
        osc: spec_osc_with_port(m.osc, port),
        tuner: TunerModel { flags, keys: m.tuner.keys },
        ..m
    }, spec_acts(seq![
            ActionView::SetMainWindowPosition { x: s.main_window_x, y: s.main_window_y },
            ActionView::RefreshDeviceList { device_type: PortType::Input, device_name: s.midi_input_device },
            ActionView::SetDevicesModel(PortType::Input),
            ActionView::RefreshDeviceList { device_type: PortType::Output, device_name: s.midi_output_device },
            ActionView::SetDevicesModel(PortType::Output),
        ]
        + spec_osc_bounce(m.osc)
        + seq![
            ActionView::SetSelectedOscListeningPortIndex(spec_listening_port_index(port) as usize),
            ActionView::SetSelectedPitchTableIndex(spec_pitch_table_index(table) as usize),
            ActionView::SetOverrideRoundingInitial(s.override_rounding_initial),
            ActionView::SetOverrideRoundingRate(s.override_rounding_rate),
            ActionView::SetRoundingRate(s.rounding_rate),
        ]))
}

/// Stopping the instrument connection monitor.
pub open spec fn spec_stop_monitor(m: PresenterModel) -> (PresenterModel, Seq<ActionView>) {
    (PresenterModel { midi: spec_monitor_stopped(m.midi), ..m },
        if m.midi.is_connection_monitor_running { seq![ActionView::StopConnectionMonitor] } else { seq![] })
}

/// Starting the instrument connection monitor at `now`.
pub open spec fn spec_start_monitor(m: PresenterModel, now: u64) -> (PresenterModel, Seq<ActionView>) {
    (PresenterModel {
        midi: MidiManagerState {
            is_connection_monitor_running: true,
            input_state: MidiInputState { last_message_received_ms: None, ..m.midi.input_state },
            monitor_start_ms: now,
            has_reported_not_connected: false,
            ..m.midi
        },
        ..m
    }, seq![ActionView::Show(StatusMessage::CheckingInstrumentConnection), ActionView::StartConnectionMonitor])
}

/// Before a device is connected or the devices are listed again: the monitor and the OSC link
/// are stopped.
pub open spec fn spec_begin_device_change(m: PresenterModel) -> (PresenterModel, Seq<ActionView>) {
    let (m1, a1) = spec_stop_monitor(m);
    let (m2, a2) = spec_stop_osc_and_show_status(m1);
    (m2, a1 + a2)
}

/// The player's choice of the listed device `index` of type `t`: the monitor and the OSC link
/// are stopped, and the device is to be connected.
pub open spec fn spec_connect_device(m: PresenterModel, t: PortType, index: usize) -> (PresenterModel, ReactionView) {
    let (m1, a) = spec_begin_device_change(m);
    (m1, spec_acts(a + seq![
        ActionView::Show(StatusMessage::DisconnectedFromPitchgrid),
        ActionView::ConnectDevice { device_type: t, index },
    ]))
}

/// The outcome of connecting the listed device `name` of type `t`: connected (`connected`), it is
/// shown and remembered in the settings; otherwise the player is told that it cannot be connected.
/// The monitor is stopped, and the devices becoming connected is raised.
pub open spec fn spec_on_device_connection(m: PresenterModel, t: PortType, name: Seq<char>, connected: bool)
    -> (PresenterModel, ReactionView)
{
    let (m1, a1) = spec_stop_monitor(m);
    let midi = spec_with_device(m1.midi, t, connected);
    let events = if !spec_devices_connected(m.midi) && spec_devices_connected(midi) {
        seq![ProtocolEvent::DevicesConnectedChanged]
    } else {
        seq![]
    };
    if connected {
        (PresenterModel { midi, settings: spec_with_device_setting(t, m.settings, name), ..m1 },
            ReactionView {
                actions: a1 + seq![ActionView::ConnectedDevice { device_type: t, name }]
                    + (if t == PortType::Input { seq![ActionView::ScheduleReceptionCheck] } else { seq![] }),
                events,
            })
    } else {
        (PresenterModel { midi, ..m1 }, ReactionView {
            actions: a1 + seq![ActionView::NoDeviceConnected(t),
                ActionView::ShowMessage { text: spec_msg_cannot_connect(t, name), message_type: MessageType::Error }],
            events,
        })
    }
}

/// The other type of device.
pub open spec fn spec_other_type(t: PortType) -> PortType {
    match t {
        PortType::Input => PortType::Output,
        PortType::Output => PortType::Input,
    }
}

/// After the player's choice of device of type `t` has been connected, or not: where a device of
/// the type is connected (`name`), the player is told, and the monitor is started if both devices
/// are connected; otherwise the player is asked to connect the other.
pub open spec fn spec_end_connect_device(m: PresenterModel, t: PortType, name: Option<Seq<char>>, now: u64)
    -> (PresenterModel, ReactionView)
{
    match name {
        None => (m, spec_acts(seq![])),
        Some(n) => {
            let a0 = seq![ActionView::ShowMessage { text: spec_msg_connected(t, n), message_type: MessageType::Info }];
            if spec_devices_connected(m.midi) {
                let (m1, a1) = spec_start_monitor(m, now);
                (m1, spec_acts(a0 + a1))
            } else {
                (m, spec_acts(a0.push(ActionView::ShowMessage {
                    text: spec_msg_connect(spec_other_type(t)),
                    message_type: MessageType::Warning,
                })))
            }
        },
    }
}

/// Listing the devices of type `t` again, which disconnects the device of that type.
pub open spec fn spec_refresh_devices(m: PresenterModel, t: PortType) -> (PresenterModel, ReactionView) {
    let (m1, a1) = spec_begin_device_change(m);
    let midi = spec_with_device(spec_monitor_stopped(m1.midi), t, false);
    (PresenterModel { midi, ..m1 }, ReactionView {
        actions: a1 + seq![
            ActionView::RefreshDeviceList { device_type: t, device_name: spec_device_setting(t, m.settings) },
            ActionView::Show(StatusMessage::DisconnectedFromPitchgrid),
            ActionView::SetDevicesModel(t),
            ActionView::NoDeviceConnected(t),
            ActionView::ShowMessage { text: spec_msg_refreshed_reconnect(t), message_type: MessageType::Warning },
        ],
        events: if spec_devices_connected(m1.midi) { seq![ProtocolEvent::DevicesConnectedChanged] } else { seq![] },
    })
}

/// Closing the application with the main window at (`x`, `y`).
pub open spec fn spec_close(m: PresenterModel, x: i32, y: i32) -> (PresenterModel, ReactionView) {
    let (m1, a1) = spec_stop_monitor(m);
    (PresenterModel {
        midi: MidiManagerState { input_connected: false, output_connected: false, ..m1.midi },
        osc: spec_osc_stopped(m.osc),
        settings: SettingsModel { main_window_x: x, main_window_y: y, ..m.settings },
        ..m1
    }, spec_acts(seq![ActionView::CloseDevices] + a1 + seq![ActionView::StopOsc]))
}

/// A MIDI message from the instrument at `now`: it is recorded (the first since monitoring
/// started is raised as data starting to arrive) and interpreted by the protocol layer.
pub open spec fn spec_midi_message(m: PresenterModel, message: Seq<u8>, now: u64) -> (PresenterModel, ReactionView) {
    let first = m.midi.input_state.last_message_received_ms is None;
    let midi = MidiManagerState {
        input_state: MidiInputState { is_receiving_data: true, last_message_received_ms: Some(now) },
        ..m.midi
    };
    let p1 = if first {
        ProtocolState { download_status: DownloadStatus::Waiting, download_wait_start_ms: Some(now), ..m.protocol }
    } else {
        m.protocol
    };
    let e1: Seq<ProtocolEvent> = if first { seq![ProtocolEvent::ReceivingDataStarted] } else { seq![] };
    let (p2, e2) = spec_protocol_on_message(p1, message, now, m.tuner.flags.pitch_table);
    (PresenterModel { midi, protocol: p2, ..m }, ReactionView { actions: seq![], events: e1 + e2 })
}

/// Coordinates the components and decides what the player is shown.
pub struct Presenter {
    tuner: Tuner,
    protocol: ContinuumProtocol,
    osc: Osc,
    midi: MidiManager,
    settings: Settings,
    watchdog: TuningUpdateWatchdog,
    is_preset_reselect: bool,
}

impl View for Presenter {
    type V = PresenterModel;

    closed spec fn view(&self) -> PresenterModel {
        PresenterModel {
            tuner: self.tuner@,
            protocol: self.protocol@,
            osc: self.osc@,
            midi: self.midi@,
            settings: self.settings@,
            is_awaiting_confirmation: self.watchdog.spec_is_awaiting(),
            is_preset_reselect: self.is_preset_reselect,
        }
    }
}

impl Presenter {
    /// The number of milliseconds to wait for a tuning update confirmation.
    pub closed spec fn spec_timeout_millis(&self) -> u16 {
        self.watchdog.spec_timeout_millis()
    }

    /// `timeout_millis` is the number of milliseconds to wait for a tuning update confirmation
    /// (see `TUNING_UPDATE_TIMEOUT_MS`).
    pub fn new(timeout_millis: u16) -> (p: Self)
        ensures
            spec_presenter_wf(p@),
            p@.tuner.keys.len() == 0,
            p@.tuner.flags == Tuner::new_flags(),
            p@.protocol == crate::continuum_protocol::spec_initial_state(),
            p@.osc == (OscState {
                listening_port: 0,
                is_running: false,
                is_pitchgrid_connected: false,
                last_ack_ms: None,
                has_reported_not_connected: false,
            }),
            p@.midi == (MidiManagerState {
                input_connected: false,
                output_connected: false,
                is_connection_monitor_running: false,
                input_state: MidiInputState::new_spec(),
                monitor_start_ms: 0,
                has_reported_not_connected: false,
            }),
            p@.settings == Settings::new_spec(),
            !p@.is_awaiting_confirmation,
            !p@.is_preset_reselect,
            p.spec_timeout_millis() == timeout_millis,
    {
        Presenter {
            tuner: Tuner::new(),
            protocol: ContinuumProtocol::new(),
            osc: Osc::new(),
            midi: MidiManager::new(),
            settings: Settings::new(),
            watchdog: TuningUpdateWatchdog::new(timeout_millis),
            is_preset_reselect: false,
        }
    }

    /// The number of milliseconds to wait for a tuning update confirmation.
    pub fn timeout_millis(&self) -> (t: u16)
        ensures
            t == self.spec_timeout_millis(),
    {
        self.watchdog.timeout_millis()
    }

    /// Stops the OSC link, removes and blanks the tuning data, and tells the player why tunings
    /// cannot be updated. When the application is connected to the instrument again, the link is
    /// restarted, which makes PitchGrid send the latest tuning.
    fn stop_osc_and_show_status(&mut self, r: &mut Reaction)
        requires
            spec_presenter_wf(old(self)@),
        ensures
            spec_presenter_wf(final(self)@),
            final(self)@ == spec_stop_osc_and_show_status(old(self)@).0,
            final(r)@.actions == old(r)@.actions + spec_stop_osc_and_show_status(old(self)@).1,
            final(r)@.events == old(r)@.events,
            final(self).spec_timeout_millis() == old(self).spec_timeout_millis(),
    {
        self.osc.stop();
        r.act(PresenterAction::StopOsc);
        self.remove_data(r);
        if !self.midi.are_devices_connected() {
            r.show(StatusMessage::CannotUpdateTuningConnect);
        } else if !self.midi.is_receiving_data() {
            r.show(StatusMessage::CannotUpdateTuningLost);
        }
        assert(r@.actions =~= old(r)@.actions + spec_stop_osc_and_show_status(old(self)@).1);
    }

    /// Removes the tuning data from the tuner and blanks the displayed tuning.
    fn remove_data(&mut self, r: &mut Reaction)
        requires
            spec_presenter_wf(old(self)@),
        ensures
            spec_presenter_wf(final(self)@),
            final(self)@ == (PresenterModel { tuner: spec_tuner_cleared(old(self)@.tuner), ..old(self)@ }),
            final(r)@.actions == old(r)@.actions.push(spec_show_tuning(spec_tuner_cleared(old(self)@.tuner))),
            final(r)@.events == old(r)@.events,
            final(self).spec_timeout_millis() == old(self).spec_timeout_millis(),
    {
        self.tuner.remove_data();
        self.show_tuning(r);
    }

    /// Shows the current tuning (blank without tuning data).
    fn show_tuning(&self, r: &mut Reaction)
        ensures
            final(r)@.actions == old(r)@.actions.push(spec_show_tuning(self@.tuner)),
            final(r)@.events == old(r)@.events,
    {
        r.act(PresenterAction::ShowTuning {
            blank: !self.tuner.has_data(),
            is_root_freq_overridden: self.tuner.is_root_freq_overridden(),
        });
    }

    /// The initial data download has completed: see `spec_on_download_completed`.
    pub fn on_download_completed(&mut self) -> (r: Reaction)
        requires
            spec_presenter_wf(old(self)@),
        ensures
            spec_presenter_wf(final(self)@),
            (final(self)@, r@) == spec_on_download_completed(old(self)@),
            final(self).spec_timeout_millis() == old(self).spec_timeout_millis(),
    {
        let mut r = Reaction::new();
        if self.midi.is_connected_and_receiving() && !self.osc.is_running() {
            self.osc.start();
            r.act(PresenterAction::StartOsc);
            r.show(StatusMessage::OpeningPitchgridConnection);
        }
        assert(r@.actions =~= spec_on_download_completed(old(self)@).1.actions);
        assert(r@.events =~= spec_on_download_completed(old(self)@).1.events);
        r
    }

    /// The initial data download has started.
    pub fn on_download_started(&mut self) -> (r: Reaction)
        ensures
            (final(self)@, r@) == spec_on_download_started(old(self)@),
            final(self).spec_timeout_millis() == old(self).spec_timeout_millis(),
    {
        let mut r = Reaction::new();
        r.show(StatusMessage::AwaitingDataDownload);
        assert(r@.actions =~= seq![ActionView::Show(StatusMessage::AwaitingDataDownload)]);
        assert(r@.events =~= Seq::<ProtocolEvent>::empty());
        r
    }

    /// The devices have become connected, or one has dropped: see
    /// `spec_on_devices_connected_changed`.
    pub fn on_devices_connected_changed(&mut self) -> (r: Reaction)
        requires
            spec_presenter_wf(old(self)@),
        ensures
            spec_presenter_wf(final(self)@),
            (final(self)@, r@) == spec_on_devices_connected_changed(old(self)@),
            final(self).spec_timeout_millis() == old(self).spec_timeout_millis(),
    {
        let mut r = Reaction::new();
        if self.midi.are_devices_connected() {
            return r;
        }
        // At least one device is not connected.
        if self.osc.is_running() {
            self.stop_osc_and_show_status(&mut r);
            r.show(StatusMessage::InstrumentDisconnected);
        }
        r.show(StatusMessage::PitchgridConnectionClosed);
        assert(r@.actions =~= spec_on_devices_connected_changed(old(self)@).1.actions);
        assert(r@.events =~= spec_on_devices_connected_changed(old(self)@).1.events);
        r
    }

    /// The player has selected a preset on the instrument: see `spec_on_new_preset_selected`.
    pub fn on_new_preset_selected(&mut self) -> (r: Reaction)
        requires
            spec_presenter_wf(old(self)@),
        ensures
            spec_presenter_wf(final(self)@),
            (final(self)@, r@) == spec_on_new_preset_selected(old(self)@),
            final(self).spec_timeout_millis() == old(self).spec_timeout_millis(),
    {
        let mut r = Reaction::new();
        // Nothing to send again until a tuning has been sent at least once.
        if !self.tuner.has_data() {
            return r;
        }
        // No progress message is shown: this update does not upload the pitch table, so it
        // completes almost at once. The update is marked so that its confirmation tells the
        // player that the tuning has been loaded to the new preset.
        self.is_preset_reselect = true;
        let (sent, send) = self.tuner.send_current_preset_update(&mut self.protocol);
        emit_send(&mut r, sent, send);
        assert(r@.actions =~= spec_on_new_preset_selected(old(self)@).1.actions);
        assert(r@.events =~= spec_on_new_preset_selected(old(self)@).1.events);
        r
    }

    /// Data has started to arrive from the instrument. The output device may not be connected,
    /// in which case the request to connect it stays shown.
    pub fn on_receiving_data_started(&mut self) -> (r: Reaction)
        ensures
            (final(self)@, r@) == spec_on_receiving_data_started(old(self)@),
            final(self).spec_timeout_millis() == old(self).spec_timeout_millis(),
    {
        let mut r = Reaction::new();
        if self.midi.are_devices_connected() {
            r.show(StatusMessage::WaitingForDataDownload);
        }
        assert(r@.actions =~= spec_on_receiving_data_started(old(self)@).1.actions);
        assert(r@.events =~= Seq::<ProtocolEvent>::empty());
        r
    }

    /// Data has stopped arriving from the instrument: see `spec_on_receiving_data_stopped`.
    pub fn on_receiving_data_stopped(&mut self) -> (r: Reaction)
        requires
            spec_presenter_wf(old(self)@),
        ensures
            spec_presenter_wf(final(self)@),
            (final(self)@, r@) == spec_on_receiving_data_stopped(old(self)@),
            final(self).spec_timeout_millis() == old(self).spec_timeout_millis(),
    {
        let mut r = Reaction::new();
        if self.osc.is_running() {
            self.stop_osc_and_show_status(&mut r);
        }
        if self.midi.are_devices_connected() {
            r.show(StatusMessage::InstrumentNotConnected);
        }
        assert(r@.actions =~= spec_on_receiving_data_stopped(old(self)@).1.actions);
        assert(r@.events =~= spec_on_receiving_data_stopped(old(self)@).1.events);
        r
    }

    /// The instrument has confirmed a tuning update: see `spec_on_tuning_updated_presenter`.
    pub fn on_tuning_updated(&mut self) -> (r: Reaction)
        requires
            spec_presenter_wf(old(self)@),
        ensures
            spec_presenter_wf(final(self)@),
            (final(self)@, r@) == spec_on_tuning_updated_presenter(old(self)@),
            final(self).spec_timeout_millis() == old(self).spec_timeout_millis(),
    {
        let mut r = Reaction::new();
        if self.watchdog.cancel() {
            r.act(PresenterAction::CancelWatchdog);
        }
        let ghost t0 = self@.tuner;
        let send = self.tuner.on_tuning_updated(&mut self.protocol);
        let was_sent = send.events.len() > 0;
        assert(was_sent == spec_on_tuning_updated(t0).1);
        emit_send(&mut r, was_sent, send);
        self.show_tuning(&mut r);
        if !self.tuner.has_data() {
            // A tuning update can be confirmed when a preset is loaded while PitchGrid is not
            // connected.
            assert(r@.actions =~= spec_on_tuning_updated_presenter(old(self)@).1.actions);
            assert(r@.events =~= spec_on_tuning_updated_presenter(old(self)@).1.events);
            return r;
        }
        if self.is_preset_reselect {
            self.is_preset_reselect = false;
            r.show(StatusMessage::PresetTuningLoaded);
        } else {
            r.show(StatusMessage::InstrumentTuningUpdated);
        }
        assert(r@.actions =~= spec_on_tuning_updated_presenter(old(self)@).1.actions);
        assert(r@.events =~= spec_on_tuning_updated_presenter(old(self)@).1.events);
        r
    }

    /// A tuning update is being sent: the confirmation timer is started.
    pub fn on_updating_tuning(&mut self) -> (r: Reaction)
        ensures
            (final(self)@, r@) == spec_on_updating_tuning(old(self)@),
            final(self).spec_timeout_millis() == old(self).spec_timeout_millis(),
    {
        let mut r = Reaction::new();
        self.watchdog.start();
        r.act(PresenterAction::StartWatchdog);
        assert(r@.actions =~= seq![ActionView::StartWatchdog]);
        assert(r@.events =~= Seq::<ProtocolEvent>::empty());
        r
    }

    /// PitchGrid has connected or disconnected: see `spec_on_pitchgrid_connected_changed`.
    pub fn on_pitchgrid_connected_changed(&mut self) -> (r: Reaction)
        requires
            spec_presenter_wf(old(self)@),
        ensures
            spec_presenter_wf(final(self)@),
            (final(self)@, r@) == spec_on_pitchgrid_connected_changed(old(self)@),
            final(self).spec_timeout_millis() == old(self).spec_timeout_millis(),
    {
        let mut r = Reaction::new();
        if self.osc.is_pitchgrid_connected() {
            self.show_tuning(&mut r);
            r.show(StatusMessage::PitchgridConnected);
            r.show(StatusMessage::PitchgridAndInstrumentConnected);
        } else {
            self.remove_data(&mut r);
            r.show(StatusMessage::PitchgridNotConnected);
            r.show(StatusMessage::AwaitingPitchgridConnection);
        }
        assert(r@.actions =~= spec_on_pitchgrid_connected_changed(old(self)@).1.actions);
        assert(r@.events =~= spec_on_pitchgrid_connected_changed(old(self)@).1.events);
        r
    }

    /// A tuning has arrived from PitchGrid, given as the retuning of each key: see
    /// `spec_on_tuning_received`.
    pub fn on_tuning_received(&mut self, keys: Vec<Key>) -> (r: Reaction)
        requires
            spec_presenter_wf(old(self)@),
        ensures
            spec_presenter_wf(final(self)@),
            (final(self)@, r@) == spec_on_tuning_received(old(self)@, keys@),
            final(self).spec_timeout_millis() == old(self).spec_timeout_millis(),
    {
        let mut r = Reaction::new();
        // A fresh tuning is not a preset reselect, even if the confirmation of one never arrived.
        self.is_preset_reselect = false;
        if self.midi.is_connected_and_receiving() {
            r.show(StatusMessage::UpdatingInstrumentTuning);
            self.tune(keys, &mut r);
        } else {
            self.stop_osc_and_show_status(&mut r);
        }
        assert(r@.actions =~= spec_on_tuning_received(old(self)@, keys@).1.actions);
        assert(r@.events =~= spec_on_tuning_received(old(self)@, keys@).1.events);
        r
    }

    /// The tuning recalculated after a change of the root frequency override (see
    /// `PresenterAction::Retune`), given as the retuning of each key: see `spec_presenter_tune`.
    pub fn retune(&mut self, keys: Vec<Key>) -> (r: Reaction)
        requires
            spec_presenter_wf(old(self)@),
        ensures
            spec_presenter_wf(final(self)@),
            (final(self)@, r@) == spec_presenter_tune(old(self)@, keys@),
            final(self).spec_timeout_millis() == old(self).spec_timeout_millis(),
    {
        let mut r = Reaction::new();
        self.tune(keys, &mut r);
        assert(r@.actions =~= spec_presenter_tune(old(self)@, keys@).1.actions);
        r
    }

    /// Handles a protocol event: see `spec_on_protocol_event`.
    pub fn on_protocol_event(&mut self, event: ProtocolEvent) -> (r: Reaction)
        requires
            spec_presenter_wf(old(self)@),
        ensures
            spec_presenter_wf(final(self)@),
            (final(self)@, r@) == spec_on_protocol_event(old(self)@, event),
            final(self).spec_timeout_millis() == old(self).spec_timeout_millis(),
    {
        match event {
            ProtocolEvent::DownloadCompleted => self.on_download_completed(),
            ProtocolEvent::DownloadStarted => self.on_download_started(),
            ProtocolEvent::NewPresetSelected => self.on_new_preset_selected(),
            ProtocolEvent::DevicesConnectedChanged => self.on_devices_connected_changed(),
            ProtocolEvent::ReceivingDataStarted => self.on_receiving_data_started(),
            ProtocolEvent::ReceivingDataStopped => self.on_receiving_data_stopped(),
            ProtocolEvent::TuningUpdated => self.on_tuning_updated(),
            ProtocolEvent::UpdatingTuning => self.on_updating_tuning(),
        }
    }

    /// Sets the root frequency override from choice `index` (0 for none) and, where it can be,
    /// sends it to the instrument: see `spec_set_root_freq_override`. The override is not saved:
    /// the player chooses one, if needed, after starting the application.
    pub fn set_root_freq_override(&mut self, index: usize) -> (r: Reaction)
        requires
            spec_presenter_wf(old(self)@),
            index + 53 <= usize::MAX,
        ensures
            spec_presenter_wf(final(self)@),
            (final(self)@, r@) == spec_set_root_freq_override(old(self)@, index),
            final(self).spec_timeout_millis() == old(self).spec_timeout_millis(),
    {
        let mut r = Reaction::new();
        let send_tuning = self.midi.is_connected_and_receiving()
            && self.protocol.has_downloaded_init_data()
            && self.osc.is_pitchgrid_connected();
        if send_tuning {
            r.show(StatusMessage::UpdatingRootFreqOverride);
        }
        if self.tuner.set_root_freq_override_note_no(index, send_tuning) {
            r.act(PresenterAction::Retune);
        }
        assert(r@.actions =~= spec_set_root_freq_override(old(self)@, index).1.actions);
        assert(r@.events =~= Seq::<ProtocolEvent>::empty());
        r
    }

    /// Sets, and saves, whether initial rounding is overridden in the tuning updates.
    pub fn set_override_rounding_initial(&mut self, value: bool)
        requires
            spec_presenter_wf(old(self)@),
        ensures
            spec_presenter_wf(final(self)@),
            final(self)@ == (PresenterModel {
                tuner: TunerModel {
                    flags: TunerFlags { override_rounding_initial: value, ..old(self)@.tuner.flags },
                    keys: old(self)@.tuner.keys,
                },
                settings: SettingsModel { override_rounding_initial: value, ..old(self)@.settings },
                ..old(self)@
            }),
            final(self).spec_timeout_millis() == old(self).spec_timeout_millis(),
    {
        self.tuner.set_override_rounding_initial(value);
        self.settings.set_override_rounding_initial(value);
    }

    /// Sets, and saves, whether the rounding rate is overridden in the tuning updates.
    pub fn set_override_rounding_rate(&mut self, value: bool)
        requires
            spec_presenter_wf(old(self)@),
        ensures
            spec_presenter_wf(final(self)@),
            final(self)@ == (PresenterModel {
                tuner: TunerModel {
                    flags: TunerFlags { override_rounding_rate: value, ..old(self)@.tuner.flags },
                    keys: old(self)@.tuner.keys,
                },
                settings: SettingsModel { override_rounding_rate: value, ..old(self)@.settings },
                ..old(self)@
            }),
            final(self).spec_timeout_millis() == old(self).spec_timeout_millis(),
    {
        self.tuner.set_override_rounding_rate(value);
        self.settings.set_override_rounding_rate(value);
    }

    /// Sets, and saves, the rounding rate used when it is overridden.
    pub fn set_rounding_rate(&mut self, rate: u8)
        requires
            spec_presenter_wf(old(self)@),
        ensures
            spec_presenter_wf(final(self)@),
            final(self)@ == (PresenterModel {
                tuner: TunerModel {
                    flags: TunerFlags { rounding_rate: rate, ..old(self)@.tuner.flags },
                    keys: old(self)@.tuner.keys,
                },
                settings: SettingsModel { rounding_rate: rate, ..old(self)@.settings },
                ..old(self)@
            }),
            final(self).spec_timeout_millis() == old(self).spec_timeout_millis(),
    {
        self.tuner.set_rounding_rate(rate);
        self.settings.set_rounding_rate(rate);
    }

    /// Sets, and saves, the listening port from choice `index` among the listening ports: see
    /// `spec_set_osc_listening_port`.
    pub fn set_osc_listening_port(&mut self, index: usize) -> (r: Reaction)
        requires
            spec_presenter_wf(old(self)@),
            index < spec_listening_ports().len(),
        ensures
            spec_presenter_wf(final(self)@),
            (final(self)@, r@) == spec_set_osc_listening_port(old(self)@, index),
            final(self).spec_timeout_millis() == old(self).spec_timeout_millis(),
    {
        let ports = Osc::listening_ports();
        let port = ports[index];
        let mut r = Reaction::new();
        if self.osc.set_listening_port(port) {
            r.act(PresenterAction::StopOsc);
            r.act(PresenterAction::StartOsc);
        }
        self.settings.set_osc_listening_port(port);
        assert(r@.actions =~= spec_set_osc_listening_port(old(self)@, index).1.actions);
        assert(r@.events =~= Seq::<ProtocolEvent>::empty());
        r
    }

    /// Sets, and saves, the pitch table from choice `index` among the pitch tables.
    pub fn set_pitch_table(&mut self, index: usize)
        requires
            spec_presenter_wf(old(self)@),
            index < spec_pitch_tables().len(),
        ensures
            spec_presenter_wf(final(self)@),
            final(self)@ == (PresenterModel {
                tuner: TunerModel {
                    flags: TunerFlags { pitch_table: spec_pitch_tables()[index as int], ..old(self)@.tuner.flags },
                    keys: old(self)@.tuner.keys,
                },
                settings: SettingsModel { pitch_table: spec_pitch_tables()[index as int], ..old(self)@.settings },
                ..old(self)@
            }),
            final(self).spec_timeout_millis() == old(self).spec_timeout_millis(),
    {
        let tables = Tuner::pitch_tables();
        let pitch_table = tables[index];
        self.tuner.set_pitch_table(pitch_table);
        self.settings.set_pitch_table(pitch_table);
    }

    /// Initialises from the settings read from the settings file, or the error that reading it
    /// gave, which is shown (and nothing else is done): see `spec_init`.
    pub fn init(&mut self, settings_read: Result<Settings, String>) -> (r: Reaction)
        requires
            spec_presenter_wf(old(self)@),
        ensures
            spec_presenter_wf(final(self)@),
            final(self).spec_timeout_millis() == old(self).spec_timeout_millis(),
            match settings_read {
                Ok(s) => (final(self)@, r@) == spec_init(old(self)@, s@),
                Err(e) => {
                    &&& final(self)@ == old(self)@
                    &&& r@.actions == seq![ActionView::ShowMessage { text: e@, message_type: MessageType::Error }]
                    &&& r@.events == Seq::<ProtocolEvent>::empty()
                },
            },
    {
        let mut r = Reaction::new();
        match settings_read {
            Err(e) => {
                let ghost text = e@;
                r.act(PresenterAction::ShowMessage { text: e, message_type: MessageType::Error });
                assert(r@.actions =~= seq![ActionView::ShowMessage { text, message_type: MessageType::Error }]);
                r
            },
            Ok(restored) => {
                let ghost s = restored@;
                self.settings.restore_from(restored);
                r.act(PresenterAction::SetMainWindowPosition {
                    x: self.settings.main_window_x(),
                    y: self.settings.main_window_y(),
                });
                r.act(PresenterAction::RefreshDeviceList {
                    device_type: PortType::Input,
                    device_name: String::from_str(self.settings.midi_input_device()),
                });
                r.act(PresenterAction::SetDevicesModel(PortType::Input));
                r.act(PresenterAction::RefreshDeviceList {
                    device_type: PortType::Output,
                    device_name: String::from_str(self.settings.midi_output_device()),
                });
                r.act(PresenterAction::SetDevicesModel(PortType::Output));
                let port = listening_port_from_setting(self.settings.osc_listening_port());
                let pitch_table = crate::tuner::pitch_table_from_setting(self.settings.pitch_table());
                if self.osc.set_listening_port(port) {
                    r.act(PresenterAction::StopOsc);
                    r.act(PresenterAction::StartOsc);
                }
                r.act(PresenterAction::SetSelectedOscListeningPortIndex(self.osc.listening_port_index()));
                self.tuner.init(pitch_table);
                r.act(PresenterAction::SetSelectedPitchTableIndex(self.tuner.pitch_table_index()));
                let rounding_initial = self.settings.override_rounding_initial();
                let rounding_rate_overridden = self.settings.override_rounding_rate();
                let rounding_rate = self.settings.rounding_rate();
                self.tuner.set_override_rounding_initial(rounding_initial);
                self.tuner.set_override_rounding_rate(rounding_rate_overridden);
                self.tuner.set_rounding_rate(rounding_rate);
                r.act(PresenterAction::SetOverrideRoundingInitial(rounding_initial));
                r.act(PresenterAction::SetOverrideRoundingRate(rounding_rate_overridden));
                r.act(PresenterAction::SetRoundingRate(rounding_rate));
                assert(r@.actions =~= spec_init(old(self)@, s).1.actions);
                assert(r@.events =~= Seq::<ProtocolEvent>::empty());
                r
            },
        }
    }

    /// The device name remembered in the settings for devices of type `device_type`.
    pub fn device_setting(&self, device_type: PortType) -> (name: &str)
        ensures
            name@ == spec_device_setting(device_type, self@.settings),
    {
        match device_type {
            PortType::Input => InputStrategy::new().device_setting(&self.settings),
            PortType::Output => OutputStrategy::new().device_setting(&self.settings),
        }
    }

    /// No device of type `device_type` that the settings remember is listed: the player is asked
    /// to choose one.
    pub fn no_initial_device(&self, device_type: PortType) -> (r: Reaction)
        ensures
            r@.actions == seq![
                ActionView::NoDeviceConnected(device_type),
                ActionView::ShowMessage { text: spec_msg_connect(device_type), message_type: MessageType::Warning },
                ActionView::FocusDevice(device_type),
            ],
            r@.events == Seq::<ProtocolEvent>::empty(),
    {
        let mut r = Reaction::new();
        r.act(PresenterAction::NoDeviceConnected(device_type));
        r.act(PresenterAction::ShowMessage {
            text: String::from_str(msg_connect(device_type)),
            message_type: MessageType::Warning,
        });
        r.act(PresenterAction::FocusDevice(device_type));
        assert(r@.actions =~= seq![
            ActionView::NoDeviceConnected(device_type),
            ActionView::ShowMessage { text: spec_msg_connect(device_type), message_type: MessageType::Warning },
            ActionView::FocusDevice(device_type),
        ]);
        assert(r@.events =~= Seq::<ProtocolEvent>::empty());
        r
    }

    /// The next step of the device setup after `done`: see `spec_next_device_setup`.
    pub fn next_device_setup(&self, done: Option<DeviceSetup>) -> (step: DeviceSetup)
        ensures
            step == spec_next_device_setup(self@, done),
    {
        match done {
            None => DeviceSetup::Output,
            Some(DeviceSetup::Output) => if self.midi.is_output_device_connected() {
                DeviceSetup::Input
            } else {
                DeviceSetup::Done
            },
            Some(_) => DeviceSetup::Done,
        }
    }

    /// Connects the device of type `device_type` that the settings remember, at `remembered` in
    /// the device list, if it is listed; otherwise the player is asked to choose one.
    pub fn connect_initial_device(&self, device_type: PortType, remembered: Option<usize>) -> (r: Reaction)
        ensures
            r@.actions == match remembered {
                Some(index) => seq![
                    ActionView::SelectDevice { device_type, index },
                    ActionView::ConnectDevice { device_type, index },
                ],
                None => seq![
                    ActionView::NoDeviceConnected(device_type),
                    ActionView::ShowMessage { text: spec_msg_connect(device_type), message_type: MessageType::Warning },
                    ActionView::FocusDevice(device_type),
                ],
            },
            r@.events == Seq::<ProtocolEvent>::empty(),
    {
        match remembered {
            Some(index) => {
                let mut r = Reaction::new();
                r.act(PresenterAction::SelectDevice { device_type, index });
                r.act(PresenterAction::ConnectDevice { device_type, index });
                assert(r@.actions =~= seq![
                    ActionView::SelectDevice { device_type, index },
                    ActionView::ConnectDevice { device_type, index },
                ]);
                assert(r@.events =~= Seq::<ProtocolEvent>::empty());
                r
            },
            None => self.no_initial_device(device_type),
        }
    }

    /// Stops the instrument connection monitor.
    fn stop_monitor(&mut self, r: &mut Reaction)
        requires
            spec_presenter_wf(old(self)@),
        ensures
            spec_presenter_wf(final(self)@),
            final(self)@ == spec_stop_monitor(old(self)@).0,
            final(r)@.actions == old(r)@.actions + spec_stop_monitor(old(self)@).1,
            final(r)@.events == old(r)@.events,
            final(self).spec_timeout_millis() == old(self).spec_timeout_millis(),
    {
        if self.midi.stop_instrument_connection_monitor() {
            r.act(PresenterAction::StopConnectionMonitor);
        }
        assert(r@.actions =~= old(r)@.actions + spec_stop_monitor(old(self)@).1);
    }

    /// Starts the instrument connection monitor at `now_ms`.
    fn start_monitor(&mut self, r: &mut Reaction, now_ms: u64)
        requires
            spec_presenter_wf(old(self)@),
        ensures
            spec_presenter_wf(final(self)@),
            final(self)@ == spec_start_monitor(old(self)@, now_ms).0,
            final(r)@.actions == old(r)@.actions + spec_start_monitor(old(self)@, now_ms).1,
            final(r)@.events == old(r)@.events,
            final(self).spec_timeout_millis() == old(self).spec_timeout_millis(),
    {
        r.show(StatusMessage::CheckingInstrumentConnection);
        self.midi.start_instrument_connection_monitor(now_ms);
        r.act(PresenterAction::StartConnectionMonitor);
        assert(r@.actions =~= old(r)@.actions + spec_start_monitor(old(self)@, now_ms).1);
    }

    /// Stops the monitor and the OSC link before the devices change.
    fn begin_device_change(&mut self, r: &mut Reaction)
        requires
            spec_presenter_wf(old(self)@),
        ensures
            spec_presenter_wf(final(self)@),
            final(self)@ == spec_begin_device_change(old(self)@).0,
            final(r)@.actions == old(r)@.actions + spec_begin_device_change(old(self)@).1,
            final(r)@.events == old(r)@.events,
            final(self).spec_timeout_millis() == old(self).spec_timeout_millis(),
    {
        let ghost r0 = r@.actions;
        self.stop_monitor(r);
        let ghost r1 = r@.actions;
        self.stop_osc_and_show_status(r);
        assert(r@.actions =~= r0 + spec_begin_device_change(old(self)@).1);
    }

    /// The player's choice of the listed device `index` of type `device_type`: see
    /// `spec_connect_device`. Once it has been connected, or not, `end_connect_device` follows.
    pub fn connect_device(&mut self, device_type: PortType, index: usize) -> (r: Reaction)
        requires
            spec_presenter_wf(old(self)@),
        ensures
            spec_presenter_wf(final(self)@),
            (final(self)@, r@) == spec_connect_device(old(self)@, device_type, index),
            final(self).spec_timeout_millis() == old(self).spec_timeout_millis(),
    {
        let mut r = Reaction::new();
        self.begin_device_change(&mut r);
        r.show(StatusMessage::DisconnectedFromPitchgrid);
        r.act(PresenterAction::ConnectDevice { device_type, index });
        assert(r@.actions =~= spec_connect_device(old(self)@, device_type, index).1.actions);
        assert(r@.events =~= Seq::<ProtocolEvent>::empty());
        r
    }

    /// The outcome of connecting the listed device `name` of type `device_type` (the previous
    /// device of that type having been disconnected first): see `spec_on_device_connection`.
    pub fn on_device_connection(&mut self, device_type: PortType, name: &str, connected: bool) -> (r: Reaction)
        requires
            spec_presenter_wf(old(self)@),
        ensures
            spec_presenter_wf(final(self)@),
            (final(self)@, r@) == spec_on_device_connection(old(self)@, device_type, name@, connected),
            final(self).spec_timeout_millis() == old(self).spec_timeout_millis(),
    {
        let mut r = Reaction::new();
        self.stop_monitor(&mut r);
        if self.midi.connect_device(device_type, connected) {
            let mut events: Vec<ProtocolEvent> = Vec::new();
            events.push(ProtocolEvent::DevicesConnectedChanged);
            r.raise(events);
        }
        if connected {
            r.act(PresenterAction::ConnectedDevice { device_type, name: String::from_str(name) });
            // Remembered only when a listed device has just connected, so that the same device is
            // connected when the application is next started, if it is available again then.
            match device_type {
                PortType::Input => {
                    InputStrategy::new().set_device_setting(&mut self.settings, name);
                    r.act(PresenterAction::ScheduleReceptionCheck);
                },
                PortType::Output => OutputStrategy::new().set_device_setting(&mut self.settings, name),
            }
        } else {
            r.act(PresenterAction::NoDeviceConnected(device_type));
            r.act(PresenterAction::ShowMessage {
                text: msg_cannot_connect(device_type, name),
                message_type: MessageType::Error,
            });
        }
        assert(r@.actions =~= spec_on_device_connection(old(self)@, device_type, name@, connected).1.actions);
        assert(r@.events =~= spec_on_device_connection(old(self)@, device_type, name@, connected).1.events);
        r
    }

    /// After the player's choice of device of type `device_type` has been connected, or not;
    /// `device_name` is the connected device of that type, if any: see `spec_end_connect_device`.
    pub fn end_connect_device(&mut self, device_type: PortType, device_name: Option<&str>, now_ms: u64)
        -> (r: Reaction)
        requires
            spec_presenter_wf(old(self)@),
        ensures
            spec_presenter_wf(final(self)@),
            (final(self)@, r@) == spec_end_connect_device(old(self)@, device_type,
                match device_name { Some(n) => Some(n@), None => None }, now_ms),
            final(self).spec_timeout_millis() == old(self).spec_timeout_millis(),
    {
        let mut r = Reaction::new();
        if let Some(name) = device_name {
            r.act(PresenterAction::ShowMessage {
                text: msg_connected(device_type, name),
                message_type: MessageType::Info,
            });
            if self.midi.are_devices_connected() {
                self.start_monitor(&mut r, now_ms);
            } else {
                let other = match device_type {
                    PortType::Input => PortType::Output,
                    PortType::Output => PortType::Input,
                };
                r.act(PresenterAction::ShowMessage {
                    text: String::from_str(msg_connect(other)),
                    message_type: MessageType::Warning,
                });
            }
        }
        assert(r@.actions =~= spec_end_connect_device(old(self)@, device_type,
            match device_name { Some(n) => Some(n@), None => None }, now_ms).1.actions);
        assert(r@.events =~= Seq::<ProtocolEvent>::empty());
        r
    }

    /// Lists the devices of type `device_type` again: see `spec_refresh_devices`.
    pub fn refresh_devices(&mut self, device_type: PortType) -> (r: Reaction)
        requires
            spec_presenter_wf(old(self)@),
        ensures
            spec_presenter_wf(final(self)@),
            (final(self)@, r@) == spec_refresh_devices(old(self)@, device_type),
            final(self).spec_timeout_millis() == old(self).spec_timeout_millis(),
    {
        let mut r = Reaction::new();
        self.begin_device_change(&mut r);
        let device_name = String::from_str(self.device_setting(device_type));
        if self.midi.refresh_devices(device_type) {
            let mut events: Vec<ProtocolEvent> = Vec::new();
            events.push(ProtocolEvent::DevicesConnectedChanged);
            r.raise(events);
        }
        r.act(PresenterAction::RefreshDeviceList { device_type, device_name });
        r.show(StatusMessage::DisconnectedFromPitchgrid);
        r.act(PresenterAction::SetDevicesModel(device_type));
        r.act(PresenterAction::NoDeviceConnected(device_type));
        r.act(PresenterAction::ShowMessage {
            text: String::from_str(msg_refreshed_reconnect(device_type)),
            message_type: MessageType::Warning,
        });
        assert(r@.actions =~= spec_refresh_devices(old(self)@, device_type).1.actions);
        assert(r@.events =~= spec_refresh_devices(old(self)@, device_type).1.events);
        r
    }

    /// The devices have been set up after initialisation: if both are connected, the instrument
    /// connection monitor is started at `now_ms`.
    pub fn finish_init(&mut self, now_ms: u64) -> (r: Reaction)
        requires
            spec_presenter_wf(old(self)@),
        ensures
            spec_presenter_wf(final(self)@),
            spec_devices_connected(old(self)@.midi) ==> (final(self)@, r@.actions)
                == spec_start_monitor(old(self)@, now_ms),
            !spec_devices_connected(old(self)@.midi) ==> final(self)@ == old(self)@
                && r@.actions == Seq::<ActionView>::empty(),
            r@.events == Seq::<ProtocolEvent>::empty(),
            final(self).spec_timeout_millis() == old(self).spec_timeout_millis(),
    {
        let mut r = Reaction::new();
        if self.midi.are_devices_connected() {
            self.start_monitor(&mut r, now_ms);
        }
        assert(spec_devices_connected(old(self)@.midi) ==> r@.actions =~= spec_start_monitor(old(self)@, now_ms).1);
        r
    }

    /// The application is closing with its main window at (`x`, `y`): see `spec_close`. Saving
    /// the settings is then the application's.
    pub fn close(&mut self, x: i32, y: i32) -> (r: Reaction)
        requires
            spec_presenter_wf(old(self)@),
        ensures
            spec_presenter_wf(final(self)@),
            (final(self)@, r@) == spec_close(old(self)@, x, y),
            final(self).spec_timeout_millis() == old(self).spec_timeout_millis(),
    {
        let mut r = Reaction::new();
        r.act(PresenterAction::CloseDevices);
        self.stop_monitor(&mut r);
        self.midi.close();
        self.osc.stop();
        r.act(PresenterAction::StopOsc);
        self.settings.set_main_window_x(x);
        self.settings.set_main_window_y(y);
        assert(r@.actions =~= spec_close(old(self)@, x, y).1.actions);
        assert(r@.events =~= Seq::<ProtocolEvent>::empty());
        r
    }

    /// A MIDI message from the instrument, received at `now_ms`: see `spec_midi_message`.
    pub fn midi_message(&mut self, message: &[u8], now_ms: u64) -> (r: Reaction)
        requires
            spec_presenter_wf(old(self)@),
            spec_parse_live_event(message@) is Some,
        ensures
            spec_presenter_wf(final(self)@),
            (final(self)@, r@) == spec_midi_message(old(self)@, message@, now_ms),
            final(self).spec_timeout_millis() == old(self).spec_timeout_millis(),
    {
        let mut r = Reaction::new();
        if self.midi.record_message(now_ms) {
            let started = self.protocol.on_receiving_data_started(now_ms);
            r.raise(started);
        }
        let pitch_table = self.tuner.pitch_table();
        let events = self.protocol.on_message(message, now_ms, pitch_table);
        r.raise(events);
        assert(r@.actions =~= Seq::<ActionView>::empty());
        assert(r@.events =~= spec_midi_message(old(self)@, message@, now_ms).1.events);
        r
    }

    /// One check of the instrument connection monitor at `now_ms` (see `spec_monitor_step` of the
    /// MIDI manager): data stopping (or never starting) is raised.
    pub fn midi_monitor_step(&mut self, now_ms: u64) -> (r: Reaction)
        requires
            spec_presenter_wf(old(self)@),
        ensures
            spec_presenter_wf(final(self)@),
            final(self)@ == (PresenterModel { midi: spec_midi_monitor_step(old(self)@.midi, now_ms).0, ..old(self)@ }),
            r@.actions == Seq::<ActionView>::empty(),
            r@.events == (if spec_midi_monitor_step(old(self)@.midi, now_ms).1 {
                seq![ProtocolEvent::ReceivingDataStopped]
            } else {
                Seq::<ProtocolEvent>::empty()
            }),
            final(self).spec_timeout_millis() == old(self).spec_timeout_millis(),
    {
        let mut r = Reaction::new();
        if self.midi.monitor_step(now_ms) {
            let events = self.protocol.on_receiving_data_stopped();
            r.raise(events);
        }
        assert(r@.events =~= (if spec_midi_monitor_step(old(self)@.midi, now_ms).1 {
            seq![ProtocolEvent::ReceivingDataStopped]
        } else {
            Seq::<ProtocolEvent>::empty()
        }));
        r
    }

    /// Called `MIDI_WAIT_SECS` seconds after an input device has been connected: if no
    /// data has arrived, that is raised.
    pub fn reception_check(&mut self) -> (r: Reaction)
        ensures
            final(self)@ == old(self)@,
            r@.actions == Seq::<ActionView>::empty(),
            r@.events == (if old(self)@.midi.input_state.is_receiving_data {
                Seq::<ProtocolEvent>::empty()
            } else {
                seq![ProtocolEvent::ReceivingDataStopped]
            }),
            final(self).spec_timeout_millis() == old(self).spec_timeout_millis(),
    {
        let mut r = Reaction::new();
        if !self.midi.is_receiving_data() {
            let events = self.protocol.on_receiving_data_stopped();
            r.raise(events);
        }
        assert(r@.events =~= (if old(self)@.midi.input_state.is_receiving_data {
            Seq::<ProtocolEvent>::empty()
        } else {
            seq![ProtocolEvent::ReceivingDataStopped]
        }));
        r
    }

    /// A message from PitchGrid with address `addr` and arguments `args`, received at `now_ms`
    /// (see `spec_on_message` of the OSC link). Messages reach the link only while it runs;
    /// one that arrives otherwise is dropped.
    pub fn osc_message(&mut self, addr: &str, args: &Vec<OscArg>, now_ms: u64) -> (events: Vec<OscEvent>)
        requires
            spec_presenter_wf(old(self)@),
        ensures
            spec_presenter_wf(final(self)@),
            old(self)@.osc.is_running ==> {
                &&& final(self)@ == (PresenterModel {
                    osc: spec_osc_on_message(old(self)@.osc, addr@, args@, now_ms).0,
                    ..old(self)@
                })
                &&& events@ == spec_osc_on_message(old(self)@.osc, addr@, args@, now_ms).1
            },
            !old(self)@.osc.is_running ==> final(self)@ == old(self)@ && events@ == Seq::<OscEvent>::empty(),
            final(self).spec_timeout_millis() == old(self).spec_timeout_millis(),
    {
        if self.osc.is_running() {
            self.osc.on_message(addr, args, now_ms)
        } else {
            Vec::new()
        }
    }

    /// A datagram received from PitchGrid at `now_ms`: where it decodes to a message (see
    /// `spec_decode_message`), the message is handled as by `osc_message`, and the tuning of a
    /// tuning message reaching the running link is delivered.
    pub fn osc_datagram(&mut self, bytes: &[u8], now_ms: u64) -> (receipt: OscReceipt)
        requires
            spec_presenter_wf(old(self)@),
        ensures
            spec_presenter_wf(final(self)@),
            final(self).spec_timeout_millis() == old(self).spec_timeout_millis(),
            match spec_decode_message(bytes@) {
                None => final(self)@ == old(self)@ && receipt.events@ == Seq::<OscEvent>::empty()
                    && receipt.tuning is None,
                Some((addr, args)) => {
                    &&& old(self)@.osc.is_running ==> {
                        &&& final(self)@ == (PresenterModel {
                            osc: spec_osc_on_message(old(self)@.osc, addr, args, now_ms).0,
                            ..old(self)@
                        })
                        &&& receipt.events@ == spec_osc_on_message(old(self)@.osc, addr, args, now_ms).1
                    }
                    &&& !old(self)@.osc.is_running ==> final(self)@ == old(self)@
                        && receipt.events@ == Seq::<OscEvent>::empty()
                    &&& receipt.tuning == (if old(self)@.osc.is_running
                        && spec_message_kind(addr) == OscMessageKind::Tuning {
                        spec_tuning_args(args)
                    } else {
                        None
                    })
                },
            },
    {
        match decode_udp_message(bytes) {
            None => OscReceipt { events: Vec::new(), tuning: None },
            Some((addr, args)) => {
                let running = self.osc.is_running();
                let events = self.osc_message(addr.as_str(), &args, now_ms);
                let tuning = if running && crate::osc::message_kind(addr.as_str()) == OscMessageKind::Tuning {
                    tuning_args(&args)
                } else {
                    None
                };
                OscReceipt { events, tuning }
            },
        }
    }

    /// One check of the PitchGrid connection monitor at `now_ms` (see `spec_monitor_step` of the
    /// OSC link).
    pub fn osc_monitor_step(&mut self, now_ms: u64) -> (events: Vec<OscEvent>)
        requires
            spec_presenter_wf(old(self)@),
        ensures
            spec_presenter_wf(final(self)@),
            final(self)@ == (PresenterModel { osc: spec_osc_monitor_step(old(self)@.osc, now_ms).0, ..old(self)@ }),
            events@ == spec_osc_monitor_step(old(self)@.osc, now_ms).1,
            final(self).spec_timeout_millis() == old(self).spec_timeout_millis(),
    {
        self.osc.monitor_step(now_ms)
    }

    /// The confirmation timer has run out: the player is told that the tuning update has not been
    /// confirmed or, where sending MIDI has failed (recorded by `notifier`, and then cleared),
    /// that sending has failed.
    pub fn on_tuning_update_timeout(&self, notifier: &mut ErrorNotifier) -> (r: Reaction)
        ensures
            r@.actions == (if old(notifier).spec_has_error() {
                seq![ActionView::ShowMidiSendError]
            } else {
                seq![ActionView::Show(StatusMessage::TuningUpdateNotConfirmed)]
            }),
            r@.events == Seq::<ProtocolEvent>::empty(),
            !final(notifier).spec_has_error(),
    {
        let mut r = Reaction::new();
        match report_timeout(notifier) {
            TimeoutReport::UpdateNotConfirmed => r.show(StatusMessage::TuningUpdateNotConfirmed),
            TimeoutReport::MidiSendError => r.act(PresenterAction::ShowMidiSendError),
        }
        assert(r@.actions =~= (if old(notifier).spec_has_error() {
            seq![ActionView::ShowMidiSendError]
        } else {
            seq![ActionView::Show(StatusMessage::TuningUpdateNotConfirmed)]
        }));
        r
    }

    pub fn tuner(&self) -> (t: &Tuner)
        ensures
            t@ == self@.tuner,
    {
        &self.tuner
    }

    pub fn protocol(&self) -> (p: &ContinuumProtocol)
        ensures
            p@ == self@.protocol,
    {
        &self.protocol
    }

    pub fn osc(&self) -> (o: &Osc)
        ensures
            o@ == self@.osc,
    {
        &self.osc
    }

    pub fn midi(&self) -> (m: &MidiManager)
        ensures
            m@ == self@.midi,
    {
        &self.midi
    }

    pub fn settings(&self) -> (s: &Settings)
        ensures
            s@ == self@.settings,
    {
        &self.settings
    }

    /// Hands a tuning to the tuner.
    fn tune(&mut self, keys: Vec<Key>, r: &mut Reaction)
        requires
            spec_presenter_wf(old(self)@),
        ensures
            spec_presenter_wf(final(self)@),
            final(self)@ == spec_presenter_tune(old(self)@, keys@).0,
            final(r)@.actions == old(r)@.actions + spec_presenter_tune(old(self)@, keys@).1.actions,
            final(r)@.events == old(r)@.events + spec_presenter_tune(old(self)@, keys@).1.events,
            final(self).spec_timeout_millis() == old(self).spec_timeout_millis(),
    {
        let was_updating = self.tuner.flags().is_already_updating;
        let send = self.tuner.on_tuning_received(keys, &mut self.protocol);
        emit_send(r, !was_updating, send);
    }
}

/// The steps of connecting the remembered devices after initialisation.
#[derive(Clone, Copy, Debug, PartialEq, Eq, Structural)]
pub enum DeviceSetup {
    /// Connect the output device (see `connect_initial_device`).
    Output,
    /// Connect the input device (see `connect_initial_device`).
    Input,
    /// The devices are set up (see `finish_init`).
    Done,
}

/// The step that follows `done`, the step last taken (`None` before the first): the output device
/// first, as no MIDI is listened to before MIDI can be sent; then the input device, only where
/// the output device has connected; then the end.
pub open spec fn spec_next_device_setup(m: PresenterModel, done: Option<DeviceSetup>) -> DeviceSetup {
    match done {
        None => DeviceSetup::Output,
        Some(DeviceSetup::Output) => if m.midi.output_connected { DeviceSetup::Input } else { DeviceSetup::Done },
        Some(_) => DeviceSetup::Done,
    }
}

/// What the main window does on a request to close it.
#[derive(Clone, Copy, Debug, PartialEq, Eq, Structural)]
pub enum CloseResponse {
    HideWindow,
    KeepWindowShown,
}

/// The response to a request to close the main window. Closing saves the settings; where that
/// fails (`closed_ok` false) the window stays open once, showing the error, and the next request
/// closes it regardless (`is_close_error_shown`, in which case closing is not attempted again).
/// Returns the response and whether a close error is now shown.
pub fn close_request_response(is_close_error_shown: bool, closed_ok: bool) -> (r: (CloseResponse, bool))
    ensures
        r == (if !is_close_error_shown && !closed_ok {
            (CloseResponse::KeepWindowShown, true)
        } else {
            (CloseResponse::HideWindow, is_close_error_shown)
        }),
{
    if is_close_error_shown {
        (CloseResponse::HideWindow, true)
    } else if !closed_ok {
        (CloseResponse::KeepWindowShown, true)
    } else {
        (CloseResponse::HideWindow, false)
    }
}

/// The request to connect a device of type `t`.
fn msg_connect(t: PortType) -> (m: &'static str)
    ensures
        m@ == spec_msg_connect(t),
{
    match t {
        PortType::Input => InputStrategy::new().msg_connect(),
        PortType::Output => OutputStrategy::new().msg_connect(),
    }
}

/// The message for a device `name` of type `t` that cannot be connected.
fn msg_cannot_connect(t: PortType, name: &str) -> (m: String)
    ensures
        m@ == spec_msg_cannot_connect(t, name@),
{
    match t {
        PortType::Input => InputStrategy::new().msg_cannot_connect(name),
        PortType::Output => OutputStrategy::new().msg_cannot_connect(name),
    }
}

/// The message for a connected device `name` of type `t`.
fn msg_connected(t: PortType, name: &str) -> (m: String)
    ensures
        m@ == spec_msg_connected(t, name@),
{
    match t {
        PortType::Input => InputStrategy::new().msg_connected(name),
        PortType::Output => OutputStrategy::new().msg_connected(name),
    }
}

/// The message once the devices of type `t` have been listed again.
fn msg_refreshed_reconnect(t: PortType) -> (m: &'static str)
    ensures
        m@ == spec_msg_refreshed_reconnect(t),
{
    match t {
        PortType::Input => InputStrategy::new().msg_refreshed_reconnect(),
        PortType::Output => OutputStrategy::new().msg_refreshed_reconnect(),
    }
}

/// Appends a tuning update to `r`, if one has been sent (`sent`).
fn emit_send(r: &mut Reaction, sent: bool, send: crate::tuner::TuningSend)
    requires
        sent ==> send.events@ == seq![ProtocolEvent::UpdatingTuning],
        !sent ==> send.events@ == Seq::<ProtocolEvent>::empty(),
    ensures
        final(r)@.actions == old(r)@.actions + (if sent {
            seq![ActionView::Send(send.commands@)]
        } else {
            Seq::<ActionView>::empty()
        }),
        final(r)@.events == old(r)@.events + send.events@,
{
    let crate::tuner::TuningSend { commands, events } = send;
    let ghost c = commands@;
    if sent {
        r.act(PresenterAction::Send(commands));
    }
    r.raise(events);
    assert(r@.actions =~= old(r)@.actions + (if sent {
        seq![ActionView::Send(c)]
    } else {
        Seq::<ActionView>::empty()
    }));
}

} // verus!