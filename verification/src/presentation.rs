//! Every status message that the player sees: its text, its severity, and the line of the window
//! on which it is shown. When a message is shown is the presenter's decision, not this module's.

use vstd::prelude::*;
use crate::global::MessageType;

verus! {

/// The name shown, and recorded, for a device slot to which no MIDI device is connected.
pub const DEVICE_NONE: &'static str = "[None]";

/// A status message with fixed text.
#[derive(Clone, Copy, Debug, PartialEq, Eq, Structural)]
pub enum StatusMessage {
    CheckingInstrumentConnection,
    AwaitingDataDownload,
    WaitingForDataDownload,
    OpeningPitchgridConnection,
    PitchgridAndInstrumentConnected,
    InstrumentDisconnected,
    InstrumentNotConnected,
    AwaitingPitchgridConnection,
    UpdatingRootFreqOverride,
    UpdatingInstrumentTuning,
    PresetTuningLoaded,
    InstrumentTuningUpdated,
    PitchgridConnected,
    DisconnectedFromPitchgrid,
    PitchgridConnectionClosed,
    PitchgridNotConnected,
    CannotUpdateTuningConnect,
    CannotUpdateTuningLost,
    TuningUpdateNotConfirmed,
}

/// The text of a status message.
pub open spec fn spec_status_text(m: StatusMessage) -> Seq<char> {
    match m {
        StatusMessage::CheckingInstrumentConnection => "Checking instrument connection..."@,
        StatusMessage::AwaitingDataDownload =>
            "Awaiting completion of data download from instrument..."@,
        StatusMessage::WaitingForDataDownload =>
            "Waiting (maximum 6 seconds) for possible initial data download from instrument..."@,
        StatusMessage::OpeningPitchgridConnection => "Opening PitchGrid connection..."@,
        StatusMessage::PitchgridAndInstrumentConnected => "PitchGrid and instrument are connected"@,
        StatusMessage::InstrumentDisconnected =>
            "Instrument is disconnected; closed PitchGrid connection."@,
        StatusMessage::InstrumentNotConnected =>
            "The instrument is not connected. Waiting for the editor to be opened with this application and the instrument connected to it..."@,
        StatusMessage::AwaitingPitchgridConnection => "Awaiting PitchGrid connection..."@,
        StatusMessage::UpdatingRootFreqOverride => "Updating root frequency override..."@,
        StatusMessage::UpdatingInstrumentTuning => "Updating instrument tuning..."@,
        StatusMessage::PresetTuningLoaded => "Tuning loaded to new instrument preset"@,
        StatusMessage::InstrumentTuningUpdated => "Instrument tuning updated"@,
        StatusMessage::PitchgridConnected => "PitchGrid OSC is connected"@,
        StatusMessage::DisconnectedFromPitchgrid =>
            "Disconnected from PitchGrid because MIDI is not connected"@,
        StatusMessage::PitchgridConnectionClosed =>
            "PitchGrid connection closed while instrument disconnected"@,
        StatusMessage::PitchgridNotConnected =>
            "PitchGrid is not connected. OSC must be enabled in PitchGrid."@,
        StatusMessage::CannotUpdateTuningConnect =>
            "Cannot update tuning. Connect instrument input/output."@,
        StatusMessage::CannotUpdateTuningLost => "Cannot update tuning. Instrument connection lost."@,
        StatusMessage::TuningUpdateNotConfirmed =>
            "Instrument tuning update has not been confirmed. Ensure that MIDI output is connected to the editor."@,
    }
}

/// The severity of a status message.
pub open spec fn spec_status_type(m: StatusMessage) -> MessageType {
    match m {
        StatusMessage::InstrumentDisconnected
        | StatusMessage::InstrumentNotConnected
        | StatusMessage::AwaitingPitchgridConnection
        | StatusMessage::DisconnectedFromPitchgrid
        | StatusMessage::PitchgridConnectionClosed => MessageType::Warning,
        StatusMessage::PitchgridNotConnected
        | StatusMessage::CannotUpdateTuningConnect
        | StatusMessage::CannotUpdateTuningLost
        | StatusMessage::TuningUpdateNotConfirmed => MessageType::Error,
        _ => MessageType::Info,
    }
}

/// Whether a status message is shown on the PitchGrid status line (the others are shown on the
/// general message line).
pub open spec fn spec_is_pitchgrid_status(m: StatusMessage) -> bool {
    match m {
        StatusMessage::UpdatingRootFreqOverride
        | StatusMessage::UpdatingInstrumentTuning
        | StatusMessage::PresetTuningLoaded
        | StatusMessage::InstrumentTuningUpdated
        | StatusMessage::PitchgridConnected
        | StatusMessage::DisconnectedFromPitchgrid
        | StatusMessage::PitchgridConnectionClosed
        | StatusMessage::PitchgridNotConnected
        | StatusMessage::CannotUpdateTuningConnect
        | StatusMessage::CannotUpdateTuningLost => true,
        _ => false,
    }
}

impl StatusMessage {
    /// The message's text.
    pub fn text(&self) -> (t: &'static str)
        ensures
            t@ == spec_status_text(*self),
    {
        match self {
            StatusMessage::CheckingInstrumentConnection => "Checking instrument connection...",
            StatusMessage::AwaitingDataDownload =>
                "Awaiting completion of data download from instrument...",
            StatusMessage::WaitingForDataDownload =>
                "Waiting (maximum 6 seconds) for possible initial data download from instrument...",
            StatusMessage::OpeningPitchgridConnection => "Opening PitchGrid connection...",
            StatusMessage::PitchgridAndInstrumentConnected => "PitchGrid and instrument are connected",
            StatusMessage::InstrumentDisconnected =>
                "Instrument is disconnected; closed PitchGrid connection.",
            StatusMessage::InstrumentNotConnected =>
                "The instrument is not connected. Waiting for the editor to be opened with this application and the instrument connected to it...",
            StatusMessage::AwaitingPitchgridConnection => "Awaiting PitchGrid connection...",
            StatusMessage::UpdatingRootFreqOverride => "Updating root frequency override...",
            StatusMessage::UpdatingInstrumentTuning => "Updating instrument tuning...",
            StatusMessage::PresetTuningLoaded => "Tuning loaded to new instrument preset",
            StatusMessage::InstrumentTuningUpdated => "Instrument tuning updated",
            StatusMessage::PitchgridConnected => "PitchGrid OSC is connected",
            StatusMessage::DisconnectedFromPitchgrid =>
                "Disconnected from PitchGrid because MIDI is not connected",
            StatusMessage::PitchgridConnectionClosed =>
                "PitchGrid connection closed while instrument disconnected",
            StatusMessage::PitchgridNotConnected =>
                "PitchGrid is not connected. OSC must be enabled in PitchGrid.",
            StatusMessage::CannotUpdateTuningConnect =>
                "Cannot update tuning. Connect instrument input/output.",
            StatusMessage::CannotUpdateTuningLost => "Cannot update tuning. Instrument connection lost.",
            StatusMessage::TuningUpdateNotConfirmed =>
                "Instrument tuning update has not been confirmed. Ensure that MIDI output is connected to the editor.",
        }
    }

    /// The message's severity.
    pub fn message_type(&self) -> (t: MessageType)
        ensures
            t == spec_status_type(*self),
    {
        match self {
            StatusMessage::InstrumentDisconnected
            | StatusMessage::InstrumentNotConnected
            | StatusMessage::AwaitingPitchgridConnection
            | StatusMessage::DisconnectedFromPitchgrid
            | StatusMessage::PitchgridConnectionClosed => MessageType::Warning,
            StatusMessage::PitchgridNotConnected
            | StatusMessage::CannotUpdateTuningConnect
            | StatusMessage::CannotUpdateTuningLost
            | StatusMessage::TuningUpdateNotConfirmed => MessageType::Error,
            _ => MessageType::Info,
        }
    }

    /// Whether the message is shown on the PitchGrid status line.
    pub fn is_pitchgrid_status(&self) -> (b: bool)
        ensures
            b == spec_is_pitchgrid_status(*self),
    {
        match self {
            StatusMessage::UpdatingRootFreqOverride
            | StatusMessage::UpdatingInstrumentTuning
            | StatusMessage::PresetTuningLoaded
            | StatusMessage::InstrumentTuningUpdated
            | StatusMessage::PitchgridConnected
            | StatusMessage::DisconnectedFromPitchgrid
            | StatusMessage::PitchgridConnectionClosed
            | StatusMessage::PitchgridNotConnected
            | StatusMessage::CannotUpdateTuningConnect
            | StatusMessage::CannotUpdateTuningLost => true,
            _ => false,
        }
    }
}

} // verus!
