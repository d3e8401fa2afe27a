//! The interpreter of the Continuum MIDI protocol: it follows the instrument's initial data
//! download and the confirmation of tuning updates.

use vstd::prelude::*;
use crate::i_continuum_protocol::{IContinuumProtocol, ProtocolEvent, TuningUpdateSignaller};
use crate::i_midi_manager::MidiInputListener;
use crate::midi_codec::{parse_live_event, spec_parse_live_event, MidiEvent};

verus! {

/// How far the instrument's initial data download to the editor has got.
#[derive(Clone, Copy, Debug, PartialEq, Eq, Structural)]
pub enum DownloadStatus {
    NotChecked,
    Waiting,
    BeginUserNames,
    EndUserNames,
    BeginSysNames,
    EndSysNames,
    Complete,
}

/// Whether a tuning update sent to the instrument awaits its confirmation.
#[derive(Clone, Copy, Debug, PartialEq, Eq, Structural)]
pub enum TuningStatus {
    Idle,
    Tuning,
}

/// The protocol state. Times are milliseconds on the caller's monotonic clock.
#[derive(Clone, Copy, Debug, PartialEq, Eq, Structural)]
pub struct ProtocolState {
    pub download_status: DownloadStatus,
    pub download_wait_start_ms: Option<u64>,
    pub is_monitoring_download: bool,
    pub tuning_status: TuningStatus,
    pub last_message_ms: Option<u64>,
}

/// The 0-based MIDI channel on which the instrument sends its control messages (channel 16).
pub const CONTROL_CHANNEL0: u8 = 15;
/// The controller that reports the pitch table (grid) loaded into the current preset.
pub const CC_GRID: u8 = 51;
/// The controller that carries download and pitch table markers.
pub const CC_DOWNLOAD_MARKER: u8 = 109;
/// Markers carried by `CC_DOWNLOAD_MARKER`.
pub const END_SYS_NAMES: u8 = 40;
pub const BEGIN_SYS_NAMES: u8 = 49;
pub const BEGIN_USER_NAMES: u8 = 54;
pub const END_USER_NAMES: u8 = 55;
/// A gap between messages, while monitoring the download, after which the download is complete.
pub const DOWNLOAD_GAP_MS: u64 = 200;
/// How long to wait, from the first message, before monitoring the download.
pub const DOWNLOAD_WAIT_MS: u64 = 6000;

/// The time from `earlier` to `now`, or zero where `now` is not later.
pub open spec fn spec_elapsed(now: u64, earlier: u64) -> int {
    if now >= earlier { now - earlier } else { 0 }
}

/// The state once the initial data download has completed.
pub open spec fn spec_download_completed(s: ProtocolState) -> ProtocolState {
    ProtocolState { is_monitoring_download: false, download_status: DownloadStatus::Complete, ..s }
}

/// The effect of a message's arrival time, before the message is interpreted. While the download
/// is monitored, a gap of at least `DOWNLOAD_GAP_MS` since the previous message completes it;
/// otherwise, until it is complete, monitoring starts once `DOWNLOAD_WAIT_MS` have passed since
/// the first message.
pub open spec fn spec_note_arrival(s: ProtocolState, now: u64) -> (ProtocolState, Seq<ProtocolEvent>) {
    let s1 = ProtocolState { last_message_ms: Some(now), ..s };
    if s.is_monitoring_download {
        if s.last_message_ms is Some && spec_elapsed(now, s.last_message_ms->0) >= DOWNLOAD_GAP_MS {
            (spec_download_completed(s1), seq![ProtocolEvent::DownloadCompleted])
        } else {
            (s1, seq![])
        }
    } else if s.download_status != DownloadStatus::Complete && s.download_wait_start_ms is Some
        && spec_elapsed(now, s.download_wait_start_ms->0) >= DOWNLOAD_WAIT_MS {
        (ProtocolState { is_monitoring_download: true, ..s1 }, seq![])
    } else {
        (s1, seq![])
    }
}

/// The effect of a download marker (channel 16, controller 109).
pub open spec fn spec_download_marker(s: ProtocolState, value: u8) -> (ProtocolState, Seq<ProtocolEvent>) {
    if value == END_SYS_NAMES {
        (ProtocolState { download_status: DownloadStatus::EndSysNames, ..s }, seq![])
    } else if value == BEGIN_SYS_NAMES {
        (ProtocolState { download_status: DownloadStatus::BeginSysNames, ..s },
            seq![ProtocolEvent::DownloadStarted])
    } else if value == BEGIN_USER_NAMES {
        (ProtocolState { download_status: DownloadStatus::BeginUserNames, ..s },
            seq![ProtocolEvent::DownloadStarted])
    } else if value == END_USER_NAMES {
        (ProtocolState { download_status: DownloadStatus::EndUserNames, ..s }, seq![])
    } else {
        (s, seq![])
    }
}

/// The interpretation of a message read as `event`, where `pitch_table` is the pitch table to
/// which this application sends tunings. Only channel 16 matters. A grid report of that pitch
/// table confirms an awaited tuning update. A program change ends the download when its last
/// names have arrived, and otherwise, once the download is complete, means a preset was selected.
pub open spec fn spec_interpret(s: ProtocolState, event: MidiEvent, pitch_table: u8)
    -> (ProtocolState, Seq<ProtocolEvent>)
{
    match event {
        MidiEvent::ControlChange { channel, controller, value } => {
            if channel != CONTROL_CHANNEL0 {
                (s, seq![])
            } else if controller == CC_GRID {
                if s.tuning_status == TuningStatus::Tuning && value == pitch_table {
                    (ProtocolState { tuning_status: TuningStatus::Idle, ..s },
                        seq![ProtocolEvent::TuningUpdated])
                } else {
                    (s, seq![])
                }
            } else if controller == CC_DOWNLOAD_MARKER {
                spec_download_marker(s, value)
            } else {
                (s, seq![])
            }
        },
        MidiEvent::ProgramChange { channel, program } => {
            if channel != CONTROL_CHANNEL0 {
                (s, seq![])
            } else if s.download_status == DownloadStatus::EndUserNames
                || s.download_status == DownloadStatus::EndSysNames {
                (spec_download_completed(s), seq![ProtocolEvent::DownloadCompleted])
            } else if s.download_status == DownloadStatus::Complete {
                (s, seq![ProtocolEvent::NewPresetSelected])
            } else {
                (s, seq![])
            }
        },
        MidiEvent::Other => (s, seq![]),
    }
}

/// The effect of receiving `message` at time `now`: first its arrival time, then its meaning.
pub open spec fn spec_on_message(s: ProtocolState, message: Seq<u8>, now: u64, pitch_table: u8)
    -> (ProtocolState, Seq<ProtocolEvent>)
{
    let (s1, e1) = spec_note_arrival(s, now);
    let (s2, e2) = spec_interpret(s1, spec_parse_live_event(message)->0, pitch_table);
    (s2, e1 + e2)
}

/// The state before any message has arrived.
pub open spec fn spec_initial_state() -> ProtocolState {
    ProtocolState {
        download_status: DownloadStatus::NotChecked,
        download_wait_start_ms: None,
        is_monitoring_download: false,
        tuning_status: TuningStatus::Idle,
        last_message_ms: None,
    }
}

/// Interprets the Continuum MIDI protocol. It consumes the raw messages and connection-lifecycle
/// events raised by the MIDI manager and returns the resulting semantic events for the
/// application.
pub struct ContinuumProtocol {
    state: ProtocolState,
}

impl View for ContinuumProtocol {
    type V = ProtocolState;

    closed spec fn view(&self) -> ProtocolState {
        self.state
    }
}

impl ContinuumProtocol {
    pub fn new() -> (p: Self)
        ensures
            p@ == spec_initial_state(),
    {
        Self {
            state: ProtocolState {
                download_status: DownloadStatus::NotChecked,
                download_wait_start_ms: None,
                is_monitoring_download: false,
                tuning_status: TuningStatus::Idle,
                last_message_ms: None,
            },
        }
    }

    /// The protocol state.
    pub fn state(&self) -> (s: ProtocolState)
        ensures
            s == self@,
    {
        self.state
    }

    fn on_init_data_download_completed(&mut self)
        ensures
            final(self)@ == spec_download_completed(old(self)@),
    {
        self.state.is_monitoring_download = false;
        self.state.download_status = DownloadStatus::Complete;
    }

    fn note_arrival(&mut self, now_ms: u64) -> (events: Vec<ProtocolEvent>)
        ensures
            (final(self)@, events@) == spec_note_arrival(old(self)@, now_ms),
    {
        let prev = self.state.last_message_ms;
        self.state.last_message_ms = Some(now_ms);
        let mut events: Vec<ProtocolEvent> = Vec::new();
        if self.state.is_monitoring_download {
            if let Some(prev) = prev {
                let gap: u64 = if now_ms >= prev { now_ms - prev } else { 0 };
                if gap >= DOWNLOAD_GAP_MS {
                    // The initial data download consists of many messages in quick succession.
                    // As none has arrived for the gap, the burst of messages has stopped.
                    self.on_init_data_download_completed();
                    events.push(ProtocolEvent::DownloadCompleted);
                }
            }
        } else if self.state.download_status != DownloadStatus::Complete {
            if let Some(start) = self.state.download_wait_start_ms {
                let waited: u64 = if now_ms >= start { now_ms - start } else { 0 };
                if waited >= DOWNLOAD_WAIT_MS {
                    self.state.is_monitoring_download = true;
                }
            }
        }
        assert(events@ =~= spec_note_arrival(old(self)@, now_ms).1);
        events
    }

    fn on_download_marker(&mut self, value: u8) -> (events: Vec<ProtocolEvent>)
        ensures
            (final(self)@, events@) == spec_download_marker(old(self)@, value),
    {
        let mut events: Vec<ProtocolEvent> = Vec::new();
        if value == END_SYS_NAMES {
            self.state.download_status = DownloadStatus::EndSysNames;
        } else if value == BEGIN_SYS_NAMES {
            self.state.download_status = DownloadStatus::BeginSysNames;
            events.push(ProtocolEvent::DownloadStarted);
        } else if value == BEGIN_USER_NAMES {
            // If system preset names have been downloaded, the download has been reported as
            // started already; reporting it again only redisplays the same status.
            self.state.download_status = DownloadStatus::BeginUserNames;
            events.push(ProtocolEvent::DownloadStarted);
        } else if value == END_USER_NAMES {
            self.state.download_status = DownloadStatus::EndUserNames;
        }
        assert(events@ =~= spec_download_marker(old(self)@, value).1);
        events
    }

    fn interpret(&mut self, event: MidiEvent, pitch_table: u8) -> (events: Vec<ProtocolEvent>)
        ensures
            (final(self)@, events@) == spec_interpret(old(self)@, event, pitch_table),
    {
        let mut events: Vec<ProtocolEvent> = Vec::new();
        match event {
            MidiEvent::ControlChange { channel, controller, value } => {
                if channel != CONTROL_CHANNEL0 {
                } else if controller == CC_GRID {
                    // A pitch table has been loaded to the instrument's current preset. When a
                    // preset is loaded, the grid reported is the preset's own (zero), so only the
                    // pitch table this application sends confirms an awaited update.
                    if self.state.tuning_status == TuningStatus::Tuning && value == pitch_table {
                        self.state.tuning_status = TuningStatus::Idle;
                        events.push(ProtocolEvent::TuningUpdated);
                    }
                } else if controller == CC_DOWNLOAD_MARKER {
                    events = self.on_download_marker(value);
                }
            },
            MidiEvent::ProgramChange { channel, program: _ } => {
                if channel != CONTROL_CHANNEL0 {
                } else if self.state.download_status == DownloadStatus::EndUserNames
                    || self.state.download_status == DownloadStatus::EndSysNames {
                    self.on_init_data_download_completed();
                    events.push(ProtocolEvent::DownloadCompleted);
                } else if self.state.download_status == DownloadStatus::Complete {
                    // The player is selecting a preset.
                    events.push(ProtocolEvent::NewPresetSelected);
                }
            },
            MidiEvent::Other => {},
        }
        assert(events@ =~= spec_interpret(old(self)@, event, pitch_table).1);
        events
    }

    /// Whether the instrument's initial data download has completed.
    pub open spec fn spec_has_downloaded_init_data(&self) -> bool {
        self@.download_status == DownloadStatus::Complete
    }
}

impl TuningUpdateSignaller for ContinuumProtocol {
    /// Marks a tuning update as in flight.
    fn on_updating_tuning(&mut self) -> (events: Vec<ProtocolEvent>)
        ensures
            final(self)@ == (ProtocolState { tuning_status: TuningStatus::Tuning, ..old(self)@ }),
            events@ == seq![ProtocolEvent::UpdatingTuning],
    {
        self.state.tuning_status = TuningStatus::Tuning;
        let mut events: Vec<ProtocolEvent> = Vec::new();
        events.push(ProtocolEvent::UpdatingTuning);
        events
    }
}

impl IContinuumProtocol for ContinuumProtocol {
    fn has_downloaded_init_data(&self) -> (b: bool)
        ensures
            b == self.spec_has_downloaded_init_data(),
    {
        self.state.download_status == DownloadStatus::Complete
    }
}

impl MidiInputListener for ContinuumProtocol {
    /// Interprets a message received at `now_ms`; `pitch_table` is the pitch table to which this
    /// application sends tunings.
    fn on_message(&mut self, message: &[u8], now_ms: u64, pitch_table: u8)
        -> (events: Vec<ProtocolEvent>)
        ensures
            (final(self)@, events@) == spec_on_message(old(self)@, message@, now_ms, pitch_table),
    {
        let mut events = self.note_arrival(now_ms);
        let event = parse_live_event(message).unwrap();
        let mut more = self.interpret(event, pitch_table);
        events.append(&mut more);
        events
    }

    /// The first message has arrived since monitoring started. The instrument starts its initial
    /// data download to the editor a few seconds after it is turned on, so monitoring of the
    /// download waits (see `spec_note_arrival`) from now.
    fn on_receiving_data_started(&mut self, now_ms: u64) -> (events: Vec<ProtocolEvent>)
        ensures
            final(self)@ == (ProtocolState {
                download_status: DownloadStatus::Waiting,
                download_wait_start_ms: Some(now_ms),
                ..old(self)@
            }),
            events@ == seq![ProtocolEvent::ReceivingDataStarted],
    {
        self.state.download_status = DownloadStatus::Waiting;
        self.state.download_wait_start_ms = Some(now_ms);
        let mut events: Vec<ProtocolEvent> = Vec::new();
        events.push(ProtocolEvent::ReceivingDataStarted);
        events
    }

    fn on_receiving_data_stopped(&mut self) -> (events: Vec<ProtocolEvent>)
        ensures
            final(self)@ == old(self)@,
            events@ == seq![ProtocolEvent::ReceivingDataStopped],
    {
        let mut events: Vec<ProtocolEvent> = Vec::new();
        events.push(ProtocolEvent::ReceivingDataStopped);
        events
    }

    fn on_devices_connected_changed(&mut self) -> (events: Vec<ProtocolEvent>)
        ensures
            final(self)@ == old(self)@,
            events@ == seq![ProtocolEvent::DevicesConnectedChanged],
    {
        let mut events: Vec<ProtocolEvent> = Vec::new();
        events.push(ProtocolEvent::DevicesConnectedChanged);
        events
    }
}

} // verus!
