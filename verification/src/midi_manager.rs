//! The decisions of the MIDI manager: which devices are connected, whether data is arriving from
//! the instrument, and when the connection-lifecycle events are raised. The MIDI connections
//! themselves, and the clock, are the caller's.

use vstd::prelude::*;
use crate::global::PortType;

verus! {

/// How long, in whole seconds, data may fail to arrive before the instrument counts as
/// disconnected (the instrument sends heartbeat messages every second when otherwise idle).
pub const MIDI_WAIT_SECS: u64 = 2;

/// The generic MIDI reception state. Times are milliseconds on the caller's monotonic clock.
#[derive(Clone, Copy, Debug, PartialEq, Eq, Structural)]
pub struct MidiInputState {
    pub is_receiving_data: bool,
    pub last_message_received_ms: Option<u64>,
}

impl MidiInputState {
    pub fn new() -> (s: Self)
        ensures
            s == (MidiInputState { is_receiving_data: false, last_message_received_ms: None }),
    {
        Self { is_receiving_data: false, last_message_received_ms: None }
    }

    /// Records that a message has just arrived. Returns whether it is the first message since
    /// monitoring started.
    pub fn record_message(&mut self, now_ms: u64) -> (is_first_message: bool)
        ensures
            *final(self) == (MidiInputState { is_receiving_data: true, last_message_received_ms: Some(now_ms) }),
            is_first_message == old(self).last_message_received_ms is None,
    {
        self.is_receiving_data = true;
        let is_first_message = self.last_message_received_ms.is_none();
        self.last_message_received_ms = Some(now_ms);
        is_first_message
    }
}

/// How long, in milliseconds, data may fail to arrive before the instrument counts as
/// disconnected: `MIDI_WAIT_SECS` seconds.
pub const MIDI_WAIT_MS: u64 = 2000;

/// Milliseconds elapsed from `earlier` to `now` (zero where `now` is not later).
pub open spec fn spec_elapsed_ms(now: u64, earlier: u64) -> int {
    if now >= earlier { now - earlier } else { 0 }
}

/// The abstract state of the MIDI manager.
#[derive(Clone, Copy, Debug, PartialEq, Eq, Structural)]
pub struct MidiManagerState {
    pub input_connected: bool,
    pub output_connected: bool,
    pub is_connection_monitor_running: bool,
    pub input_state: MidiInputState,
    /// When the running connection monitor started.
    pub monitor_start_ms: u64,
    /// Whether the running monitor has reported that data has not started arriving.
    pub has_reported_not_connected: bool,
}

/// Both devices are connected.
pub open spec fn spec_devices_connected(s: MidiManagerState) -> bool {
    s.input_connected && s.output_connected
}

/// The state once the connection monitor has been stopped.
pub open spec fn spec_monitor_stopped(s: MidiManagerState) -> MidiManagerState {
    if s.is_connection_monitor_running {
        MidiManagerState {
            is_connection_monitor_running: false,
            input_state: MidiInputState { is_receiving_data: false, ..s.input_state },
            ..s
        }
    } else {
        s
    }
}

/// The state once a device of `device_type` is connected (`connected`) or not.
pub open spec fn spec_with_device(s: MidiManagerState, device_type: PortType, connected: bool) -> MidiManagerState {
    match device_type {
        PortType::Input => MidiManagerState { input_connected: connected, ..s },
        PortType::Output => MidiManagerState { output_connected: connected, ..s },
    }
}

/// One check of the connection monitor at `now`: while data arrives, more than `MIDI_WAIT_MS`
/// (2 seconds) without a message means that the instrument has disconnected; before data
/// arrives, the same time since the monitor started means that it is not connected, which is
/// reported once. Returns the new state and whether data has stopped (or never started).
pub open spec fn spec_monitor_step(s: MidiManagerState, now: u64) -> (MidiManagerState, bool) {
    if s.input_state.is_receiving_data {
        match s.input_state.last_message_received_ms {
            Some(last) => if spec_elapsed_ms(now, last) > MIDI_WAIT_MS {
                (MidiManagerState { input_state: MidiInputState::new_spec(), ..s }, true)
            } else {
                (s, false)
            },
            None => (s, false),
        }
    } else if !s.has_reported_not_connected && spec_elapsed_ms(now, s.monitor_start_ms) > MIDI_WAIT_MS {
        (MidiManagerState { has_reported_not_connected: true, ..s }, true)
    } else {
        (s, false)
    }
}

impl MidiInputState {
    /// Nothing received.
    pub open spec fn new_spec() -> MidiInputState {
        MidiInputState { is_receiving_data: false, last_message_received_ms: None }
    }
}

/// The MIDI manager's state: which devices are connected, whether data is arriving, and the
/// instrument connection monitor.
pub struct MidiManager {
    state: MidiManagerState,
}

impl View for MidiManager {
    type V = MidiManagerState;

    closed spec fn view(&self) -> MidiManagerState {
        self.state
    }
}

impl MidiManager {
    pub fn new() -> (m: Self)
        ensures
            m@ == (MidiManagerState {
                input_connected: false,
                output_connected: false,
                is_connection_monitor_running: false,
                input_state: MidiInputState::new_spec(),
                monitor_start_ms: 0,
                has_reported_not_connected: false,
            }),
    {
        Self {
            state: MidiManagerState {
                input_connected: false,
                output_connected: false,
                is_connection_monitor_running: false,
                input_state: MidiInputState::new(),
                monitor_start_ms: 0,
                has_reported_not_connected: false,
            },
        }
    }

    /// Whether both input and output devices are connected.
    pub fn are_devices_connected(&self) -> (b: bool)
        ensures
            b == spec_devices_connected(self@),
    {
        self.state.input_connected && self.state.output_connected
    }

    pub fn is_output_device_connected(&self) -> (b: bool)
        ensures
            b == self@.output_connected,
    {
        self.state.output_connected
    }

    /// Whether data is arriving from the instrument, which sends heartbeat messages every second
    /// when otherwise idle.
    pub fn is_receiving_data(&self) -> (b: bool)
        ensures
            b == self@.input_state.is_receiving_data,
    {
        self.state.input_state.is_receiving_data
    }

    /// Whether both devices are connected and data is arriving.
    pub fn is_connected_and_receiving(&self) -> (b: bool)
        ensures
            b == (spec_devices_connected(self@) && self@.input_state.is_receiving_data),
    {
        self.are_devices_connected() && self.is_receiving_data()
    }

    /// Disconnects both devices and stops the connection monitor.
    pub fn close(&mut self)
        ensures
            final(self)@ == (MidiManagerState {
                input_connected: false,
                output_connected: false,
                ..spec_monitor_stopped(old(self)@)
            }),
    {
        self.state.input_connected = false;
        self.state.output_connected = false;
        self.stop_instrument_connection_monitor();
    }

    /// Records the outcome of connecting the device of `device_type` (the previous device of that
    /// type having been disconnected first). The connection monitor is stopped. Returns whether
    /// both devices have just become connected, which is to be reported.
    pub fn connect_device(&mut self, device_type: PortType, connected: bool) -> (both_now_connected: bool)
        ensures
            final(self)@ == spec_with_device(spec_monitor_stopped(old(self)@), device_type, connected),
            both_now_connected == (!spec_devices_connected(old(self)@) && spec_devices_connected(final(self)@)),
    {
        let were_devices_connected = self.are_devices_connected();
        self.stop_instrument_connection_monitor();
        match device_type {
            PortType::Input => self.state.input_connected = connected,
            PortType::Output => self.state.output_connected = connected,
        }
        !were_devices_connected && self.are_devices_connected()
    }

    /// Records that the devices of `device_type` have been listed again, which disconnects the
    /// device of that type. The connection monitor is stopped. Returns whether both devices were
    /// connected, so that one has just dropped, which is to be reported.
    pub fn refresh_devices(&mut self, device_type: PortType) -> (one_dropped: bool)
        ensures
            final(self)@ == spec_with_device(spec_monitor_stopped(old(self)@), device_type, false),
            one_dropped == spec_devices_connected(old(self)@),
    {
        let were_devices_connected = self.are_devices_connected();
        self.stop_instrument_connection_monitor();
        match device_type {
            PortType::Input => self.state.input_connected = false,
            PortType::Output => self.state.output_connected = false,
        }
        were_devices_connected
    }

    /// Records that a message has arrived at `now_ms`. Returns whether it is the first since
    /// monitoring started, which is to be reported as data starting to arrive.
    pub fn record_message(&mut self, now_ms: u64) -> (is_first_message: bool)
        ensures
            final(self)@ == (MidiManagerState {
                input_state: MidiInputState { is_receiving_data: true, last_message_received_ms: Some(now_ms) },
                ..old(self)@
            }),
            is_first_message == old(self)@.input_state.last_message_received_ms is None,
    {
        self.state.input_state.record_message(now_ms)
    }

    /// Starts monitoring the instrument connection at `now_ms`.
    pub fn start_instrument_connection_monitor(&mut self, now_ms: u64)
        ensures
            final(self)@ == (MidiManagerState {
                is_connection_monitor_running: true,
                input_state: MidiInputState { last_message_received_ms: None, ..old(self)@.input_state },
                monitor_start_ms: now_ms,
                has_reported_not_connected: false,
                ..old(self)@
            }),
    {
        self.state.input_state.last_message_received_ms = None;
        self.state.monitor_start_ms = now_ms;
        self.state.has_reported_not_connected = false;
        self.state.is_connection_monitor_running = true;
    }

    /// Stops monitoring the instrument connection, if it is monitored; data then counts as not
    /// arriving. Returns whether a running monitor was stopped.
    pub fn stop_instrument_connection_monitor(&mut self) -> (was_running: bool)
        ensures
            final(self)@ == spec_monitor_stopped(old(self)@),
            was_running == old(self)@.is_connection_monitor_running,
    {
        if !self.state.is_connection_monitor_running {
            return false;
        }
        self.state.is_connection_monitor_running = false;
        self.state.input_state.is_receiving_data = false;
        true
    }

    /// One check of the connection monitor at `now_ms`: see `spec_monitor_step`. Returns
    /// whether data has stopped arriving (or never started), which is to be reported.
    pub fn monitor_step(&mut self, now_ms: u64) -> (stopped: bool)
        ensures
            (final(self)@, stopped) == spec_monitor_step(old(self)@, now_ms),
    {
        if self.state.input_state.is_receiving_data {
            if let Some(last) = self.state.input_state.last_message_received_ms {
                let elapsed: u64 = if now_ms >= last { now_ms - last } else { 0 };
                if elapsed > MIDI_WAIT_MS {
                    // The instrument has disconnected.
                    self.state.input_state = MidiInputState::new();
                    return true;
                }
            }
            false
        } else if !self.state.has_reported_not_connected {
            let start = self.state.monitor_start_ms;
            let elapsed: u64 = if now_ms >= start { now_ms - start } else { 0 };
            if elapsed > MIDI_WAIT_MS {
                // Not connected since the monitor started: the instrument is not connected yet.
                self.state.has_reported_not_connected = true;
                true
            } else {
                false
            }
        } else {
            false
        }
    }
}

} // verus!
