//! The seams between the Continuum protocol layer, the MIDI layer below it, the tuner beside it
//! and the application above it.

use vstd::prelude::*;

verus! {

/// An interpreted Continuum event, raised by the protocol layer for the application.
#[derive(Clone, Copy, Debug, PartialEq, Eq, Structural)]
pub enum ProtocolEvent {
    DownloadCompleted,
    DownloadStarted,
    NewPresetSelected,
    DevicesConnectedChanged,
    ReceivingDataStarted,
    ReceivingDataStopped,
    TuningUpdated,
    UpdatingTuning,
}

/// The semantic seam by which the protocol layer's events reach the application.
pub trait ContinuumProtocolListener {
    fn on_download_completed(&self);
    fn on_download_started(&self);
    fn on_new_preset_selected(&self);
    fn on_devices_connected_changed(&self);
    fn on_receiving_data_started(&self);
    fn on_receiving_data_stopped(&self);
    fn on_tuning_updated(&self);
    fn on_updating_tuning(&self);
}

/// Raises `event` on `listener`: each event reaches the listener method of the same name.
pub fn raise_event<L: ContinuumProtocolListener>(listener: &L, event: ProtocolEvent) {
    match event {
        ProtocolEvent::DownloadCompleted => listener.on_download_completed(),
        ProtocolEvent::DownloadStarted => listener.on_download_started(),
        ProtocolEvent::NewPresetSelected => listener.on_new_preset_selected(),
        ProtocolEvent::DevicesConnectedChanged => listener.on_devices_connected_changed(),
        ProtocolEvent::ReceivingDataStarted => listener.on_receiving_data_started(),
        ProtocolEvent::ReceivingDataStopped => listener.on_receiving_data_stopped(),
        ProtocolEvent::TuningUpdated => listener.on_tuning_updated(),
        ProtocolEvent::UpdatingTuning => listener.on_updating_tuning(),
    }
}

/// Raises each of `events` on `listener`, in order.
pub fn raise_events<L: ContinuumProtocolListener>(listener: &L, events: &Vec<ProtocolEvent>) {
    let n = events.len();
    for i in 0..n
        invariant
            n == events.len(),
    {
        raise_event(listener, events[i]);
    }
}

/// The seam by which the tuner tells the protocol layer that it is about to send a tuning
/// update, so that the layer can mark a tuning as in flight. Returns the events to raise.
pub trait TuningUpdateSignaller {
    fn on_updating_tuning(&mut self) -> Vec<ProtocolEvent>;
}

/// The application's handle on the protocol layer.
pub trait IContinuumProtocol: TuningUpdateSignaller {
    fn has_downloaded_init_data(&self) -> bool;
}

/// A tuning-update signaller that does nothing, for a tuner that is not wired to an instrument.
pub struct NullTuningSignaller;

impl TuningUpdateSignaller for NullTuningSignaller {
    fn on_updating_tuning(&mut self) -> (events: Vec<ProtocolEvent>)
        ensures
            events@ == Seq::<ProtocolEvent>::empty(),
    {
        Vec::new()
    }
}

} // verus!
