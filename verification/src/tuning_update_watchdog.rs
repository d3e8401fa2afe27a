//! Waiting for the instrument's confirmation that a tuning update has been applied. The timer is
//! the caller's; the decisions are here. If no confirmation arrives within the timeout, the
//! probable cause is that MIDI output is not connected to one of the editor's "Ext All Data"
//! MIDI inputs.

use vstd::prelude::*;
use crate::error_notifier::ErrorNotifier;

verus! {

/// The timeout, in milliseconds, for a tuning update to be confirmed.
pub const TUNING_UPDATE_TIMEOUT_MS: u16 = 2000;

/// What is reported when a tuning update has not been confirmed in time.
#[derive(Clone, Copy, Debug, PartialEq, Eq, Structural)]
pub enum TimeoutReport {
    /// No error was recorded in sending: the update has not been confirmed.
    UpdateNotConfirmed,
    /// Sending MIDI failed; the recorded error has been cleared.
    MidiSendError,
}

/// Watches for the instrument's confirmation that a tuning update has been applied.
#[derive(Clone, Copy, Debug)]
pub struct TuningUpdateWatchdog {
    is_awaiting: bool,
    timeout_millis: u16,
}

impl TuningUpdateWatchdog {
    /// Whether a confirmation is awaited.
    pub closed spec fn spec_is_awaiting(&self) -> bool {
        self.is_awaiting
    }

    /// The number of milliseconds to wait for a confirmation.
    pub closed spec fn spec_timeout_millis(&self) -> u16 {
        self.timeout_millis
    }

    /// `timeout_millis` is the number of milliseconds to wait for a confirmation (see
    /// `TUNING_UPDATE_TIMEOUT_MS`).
    pub fn new(timeout_millis: u16) -> (w: Self)
        ensures
            !w.spec_is_awaiting(),
            w.spec_timeout_millis() == timeout_millis,
    {
        Self { is_awaiting: false, timeout_millis }
    }

    pub fn timeout_millis(&self) -> (t: u16)
        ensures
            t == self.spec_timeout_millis(),
    {
        self.timeout_millis
    }

    pub fn is_awaiting(&self) -> (b: bool)
        ensures
            b == self.spec_is_awaiting(),
    {
        self.is_awaiting
    }

    /// Starts (or restarts) waiting for the confirmation; the caller starts the timer.
    pub fn start(&mut self)
        ensures
            final(self).spec_is_awaiting(),
            final(self).spec_timeout_millis() == old(self).spec_timeout_millis(),
    {
        self.is_awaiting = true;
    }

    /// The update has been confirmed. Returns whether a wait was pending, in which case the
    /// caller stops the timer.
    pub fn cancel(&mut self) -> (was_awaiting: bool)
        ensures
            was_awaiting == old(self).spec_is_awaiting(),
            !final(self).spec_is_awaiting(),
            final(self).spec_timeout_millis() == old(self).spec_timeout_millis(),
    {
        if self.is_awaiting {
            self.is_awaiting = false;
            true
        } else {
            false
        }
    }
}

/// The timer ran out before the confirmation arrived: decides what to report, given the MIDI
/// sender's error notifier. A recorded send error is reported (and cleared) in preference to the
/// missing confirmation.
pub fn report_timeout(notifier: &mut ErrorNotifier) -> (r: TimeoutReport)
    ensures
        r == (if old(notifier).spec_has_error() {
            TimeoutReport::MidiSendError
        } else {
            TimeoutReport::UpdateNotConfirmed
        }),
        !final(notifier).spec_has_error(),
{
    if !notifier.has_error() {
        TimeoutReport::UpdateNotConfirmed
    } else {
        notifier.clear_error();
        TimeoutReport::MidiSendError
    }
}

} // verus!
