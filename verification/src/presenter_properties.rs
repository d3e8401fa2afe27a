//! Properties of the presenter that span its handlers: what the player is told, and what is sent
//! to the instrument, over a sequence of events.

use vstd::prelude::*;
use crate::global::PortType;
use crate::i_continuum_protocol::ProtocolEvent;
use crate::midi_manager::spec_devices_connected;
use crate::presentation::StatusMessage;
use crate::presenter::{
    spec_connected_and_receiving, spec_on_download_completed, spec_on_devices_connected_changed,
    spec_on_receiving_data_stopped,
    spec_on_new_preset_selected, spec_on_tuning_received, spec_on_tuning_updated_presenter,
    spec_on_updating_tuning, spec_override_sent_at_once, spec_presenter_wf, spec_refresh_devices,
    spec_init, spec_on_protocol_event, spec_set_root_freq_override, ActionView, PresenterModel,
};
use crate::settings::SettingsModel;
use crate::tuner::{spec_cc, spec_pitch_tables, spec_rounding_commands, spec_tuning_update_commands};

verus! {

/// A fresh tuning, received while the instrument is connected and sending and nothing is in
/// flight, is sent at once as a full update and the confirmation timer started; the instrument's
/// confirmation stops the timer, shows the tuning, and tells the player "Instrument tuning
/// updated"; nothing is then in flight.
pub proof fn law_fresh_tuning_is_sent_and_confirmed(m: PresenterModel, keys: Seq<crate::tuner::Key>)
    requires
        spec_presenter_wf(m),
        spec_connected_and_receiving(m.midi),
        !m.tuner.flags.is_already_updating,
        keys.len() > 0,
    ensures
        ({
            let (m1, r1) = spec_on_tuning_received(m, keys);
            let (m2, r2) = spec_on_updating_tuning(m1);
            let (m3, r3) = spec_on_tuning_updated_presenter(m2);
            &&& r1.actions == seq![
                ActionView::Show(StatusMessage::UpdatingInstrumentTuning),
                ActionView::Send(spec_tuning_update_commands(m.tuner.flags, keys, true)),
            ]
            &&& r1.events == seq![ProtocolEvent::UpdatingTuning]
            &&& r2.actions == seq![ActionView::StartWatchdog]
            &&& r3.actions == seq![
                ActionView::CancelWatchdog,
                ActionView::ShowTuning {
                    blank: false,
                    is_root_freq_overridden: m.tuner.flags.root_freq_override_note_no != 0,
                },
                ActionView::Show(StatusMessage::InstrumentTuningUpdated),
            ]
            &&& r3.events == Seq::<ProtocolEvent>::empty()
            &&& !m3.is_awaiting_confirmation
            &&& !m3.tuner.flags.is_already_updating
            &&& m3.tuner.keys == keys
        }),
{
    let (m1, r1) = spec_on_tuning_received(m, keys);
    assert(r1.actions =~= seq![
        ActionView::Show(StatusMessage::UpdatingInstrumentTuning),
        ActionView::Send(spec_tuning_update_commands(m.tuner.flags, keys, true)),
    ]);
    let (m2, r2) = spec_on_updating_tuning(m1);
    let (m3, r3) = spec_on_tuning_updated_presenter(m2);
    assert(r3.actions =~= seq![
        ActionView::CancelWatchdog,
        ActionView::ShowTuning {
            blank: false,
            is_root_freq_overridden: m.tuner.flags.root_freq_override_note_no != 0,
        },
        ActionView::Show(StatusMessage::InstrumentTuningUpdated),
    ]);
}

/// When the player selects a preset on the instrument after a tuning has been sent, the current
/// tuning is sent again for the new preset, without uploading the pitch table: the rounding
/// overrides, then the selection of the pitch table. Its confirmation tells the player "Tuning
/// loaded to new instrument preset".
pub proof fn law_preset_reselect_is_resent_and_confirmed_as_loaded(m: PresenterModel)
    requires
        spec_presenter_wf(m),
        m.tuner.keys.len() > 0,
    ensures
        ({
            let (m1, r1) = spec_on_new_preset_selected(m);
            let (m2, r2) = spec_on_updating_tuning(m1);
            let (m3, r3) = spec_on_tuning_updated_presenter(m2);
            &&& r1.actions == seq![ActionView::Send(
                spec_rounding_commands(m.tuner.flags) + seq![spec_cc(16, 51, m.tuner.flags.pitch_table)])]
            &&& r1.events == seq![ProtocolEvent::UpdatingTuning]
            &&& m1.is_preset_reselect
            &&& r3.actions.last() == ActionView::Show(StatusMessage::PresetTuningLoaded)
            &&& !m3.is_preset_reselect
            &&& !m3.is_awaiting_confirmation
        }),
{
    let (m1, r1) = spec_on_new_preset_selected(m);
    assert(spec_tuning_update_commands(m.tuner.flags, m.tuner.keys, false)
        =~= spec_rounding_commands(m.tuner.flags) + seq![spec_cc(16, 51, m.tuner.flags.pitch_table)]);
    let (m2, r2) = spec_on_updating_tuning(m1);
    let (m3, r3) = spec_on_tuning_updated_presenter(m2);
}

/// A fresh tuning that arrives while the resend for a new preset awaits its confirmation makes
/// the next confirmation tell the player "Instrument tuning updated", not that the tuning has been
/// loaded to a new preset.
pub proof fn law_fresh_tuning_ends_a_preset_reselect(m: PresenterModel, keys: Seq<crate::tuner::Key>)
    requires
        spec_presenter_wf(m),
        spec_connected_and_receiving(m.midi),
        m.is_preset_reselect,
        keys.len() > 0,
    ensures
        ({
            let (m1, r1) = spec_on_tuning_received(m, keys);
            let (m2, r2) = spec_on_tuning_updated_presenter(m1);
            &&& !m1.is_preset_reselect
            &&& r2.actions.last() == ActionView::Show(StatusMessage::InstrumentTuningUpdated)
        }),
{
}

/// A tuning that arrives while the instrument is not connected or not sending is not sent: the
/// PitchGrid link is stopped, the tuning data removed and blanked, and the player told why.
pub proof fn law_no_tuning_is_sent_to_an_absent_instrument(m: PresenterModel, keys: Seq<crate::tuner::Key>)
    requires
        spec_presenter_wf(m),
        !spec_connected_and_receiving(m.midi),
    ensures
        ({
            let (m1, r1) = spec_on_tuning_received(m, keys);
            &&& forall|i: int| 0 <= i < r1.actions.len() ==> !(#[trigger] r1.actions[i] is Send)
            &&& r1.events == Seq::<ProtocolEvent>::empty()
            &&& !m1.osc.is_running
            &&& m1.tuner.keys.len() == 0
            &&& r1.actions[0] == ActionView::StopOsc
            &&& r1.actions.last() == ActionView::Show(
                if !spec_devices_connected(m.midi) {
                    StatusMessage::CannotUpdateTuningConnect
                } else {
                    StatusMessage::CannotUpdateTuningLost
                })
        }),
{
}

/// On the completion of the instrument's initial data download, the PitchGrid link is opened
/// exactly when it is not running yet and the instrument is connected and sending.
pub proof fn law_pitchgrid_link_opens_only_for_a_connected_instrument(m: PresenterModel)
    requires
        spec_presenter_wf(m),
    ensures
        spec_on_download_completed(m).0.osc.is_running
            ==> m.osc.is_running || spec_connected_and_receiving(m.midi),
        !m.osc.is_running && spec_connected_and_receiving(m.midi)
            ==> spec_on_download_completed(m).0.osc.is_running,
{
}

/// Listing the devices of one type again while both are connected disconnects that device: the
/// PitchGrid link stops, the tuning data is removed, and the raised change of connection, once
/// handled, tells the player that the PitchGrid connection has closed.
pub proof fn law_refreshing_a_connected_device_closes_pitchgrid(m: PresenterModel, t: PortType)
    requires
        spec_presenter_wf(m),
        spec_devices_connected(m.midi),
    ensures
        ({
            let (m1, r1) = spec_refresh_devices(m, t);
            let (m2, r2) = spec_on_devices_connected_changed(m1);
            &&& r1.events == seq![ProtocolEvent::DevicesConnectedChanged]
            &&& !spec_devices_connected(m1.midi)
            &&& !m1.midi.is_connection_monitor_running
            &&& !m2.osc.is_running
            &&& m2.tuner.keys.len() == 0
            &&& r2.actions == seq![ActionView::Show(StatusMessage::PitchgridConnectionClosed)]
        }),
{
    let (m1, r1) = spec_refresh_devices(m, t);
    let (m2, r2) = spec_on_devices_connected_changed(m1);
    assert(r2.actions =~= seq![ActionView::Show(StatusMessage::PitchgridConnectionClosed)]);
}

/// The root frequency override is not saved to the settings, and it is sent to the instrument
/// (by recalculating the tuning) only when a tuning has been received and the instrument and
/// PitchGrid are ready for it.
pub proof fn law_root_freq_override_is_not_saved(m: PresenterModel, index: usize)
    ensures
        spec_set_root_freq_override(m, index).0.settings == m.settings,
        spec_set_root_freq_override(m, index).1.actions.contains(ActionView::Retune)
            <==> spec_override_sent_at_once(m) && m.tuner.keys.len() > 0,
{
    let a = spec_set_root_freq_override(m, index).1.actions;
    if a.contains(ActionView::Retune) {
        let i = choose|i: int| 0 <= i < a.len() && a[i] == ActionView::Retune;
        if !(spec_override_sent_at_once(m) && m.tuner.keys.len() > 0) {
            if spec_override_sent_at_once(m) {
                assert(a =~= seq![ActionView::Show(StatusMessage::UpdatingRootFreqOverride)]);
            } else {
                assert(a =~= Seq::<ActionView>::empty());
            }
        }
    }
    if spec_override_sent_at_once(m) && m.tuner.keys.len() > 0 {
        assert(a[1] == ActionView::Retune);
    }
}

/// The events that the instrument's protocol raises never change the settings, the pitch table
/// to which tunings are sent, the rounding overrides or the root frequency override: those change
/// only at the player's choice (or when the settings are read).
pub proof fn law_protocol_events_keep_the_configuration(m: PresenterModel, e: ProtocolEvent)
    ensures
        ({
            let m1 = spec_on_protocol_event(m, e).0;
            &&& m1.settings == m.settings
            &&& m1.tuner.flags.pitch_table == m.tuner.flags.pitch_table
            &&& m1.tuner.flags.override_rounding_initial == m.tuner.flags.override_rounding_initial
            &&& m1.tuner.flags.override_rounding_rate == m.tuner.flags.override_rounding_rate
            &&& m1.tuner.flags.rounding_rate == m.tuner.flags.rounding_rate
            &&& m1.tuner.flags.root_freq_override_note_no == m.tuner.flags.root_freq_override_note_no
            &&& m1.osc.listening_port == m.osc.listening_port
        }),
{
    match e {
        ProtocolEvent::DownloadCompleted => {
            let (m1, r) = spec_on_download_completed(m);
        },
        ProtocolEvent::DevicesConnectedChanged => {
            let (m1, r) = spec_on_devices_connected_changed(m);
        },
        ProtocolEvent::ReceivingDataStopped => {
            let (m1, r) = spec_on_receiving_data_stopped(m);
        },
        ProtocolEvent::TuningUpdated => {
            let (m1, r) = spec_on_tuning_updated_presenter(m);
        },
        ProtocolEvent::NewPresetSelected => {
            let (m1, r) = spec_on_new_preset_selected(m);
        },
        _ => {},
    }
}

/// After initialisation from settings, the tuner sends what the settings hold and the view shows:
/// the rounding overrides and rounding rate are the saved ones, as the view is told; the pitch
/// table is the saved one where it is one of the pitch tables (and otherwise the default, 80),
/// and the view is told its index.
pub proof fn law_init_configures_the_tuner_as_saved_and_shown(m: PresenterModel, s: SettingsModel)
    ensures
        ({
            let (m1, r) = spec_init(m, s);
            let f = m1.tuner.flags;
            &&& m1.settings == s
            &&& f.override_rounding_initial == s.override_rounding_initial
            &&& f.override_rounding_rate == s.override_rounding_rate
            &&& f.rounding_rate == s.rounding_rate
            &&& r.actions.contains(ActionView::SetOverrideRoundingInitial(f.override_rounding_initial))
            &&& r.actions.contains(ActionView::SetOverrideRoundingRate(f.override_rounding_rate))
            &&& r.actions.contains(ActionView::SetRoundingRate(f.rounding_rate))
            &&& (80 <= s.pitch_table <= 87 ==> f.pitch_table == s.pitch_table)
            &&& (!(80 <= s.pitch_table <= 87) ==> f.pitch_table == 80)
            &&& r.actions.contains(ActionView::SetSelectedPitchTableIndex((f.pitch_table - 80) as usize))
            &&& m1.tuner.keys == m.tuner.keys
        }),
{
    let (m1, r) = spec_init(m, s);
    let f = m1.tuner.flags;
    let n = r.actions.len();
    assert(r.actions[n - 1] == ActionView::SetRoundingRate(s.rounding_rate));
    assert(r.actions[n - 2] == ActionView::SetOverrideRoundingRate(s.override_rounding_rate));
    assert(r.actions[n - 3] == ActionView::SetOverrideRoundingInitial(s.override_rounding_initial));
    if 80 <= s.pitch_table <= 87 {
        assert(spec_pitch_tables()[s.pitch_table - 80] == s.pitch_table);
    } else if spec_pitch_tables().contains(s.pitch_table) {
        let k = choose|k: int| 0 <= k < 8 && spec_pitch_tables()[k] == s.pitch_table;
        assert(spec_pitch_tables()[k] == 80 + k);
    }
    assert(r.actions[n - 4] == ActionView::SetSelectedPitchTableIndex((f.pitch_table - 80) as usize));
}

/// A tuning that waits while an update is in flight is sent, in full, when the instrument confirms
/// that update: the confirmation's actions send the waiting tuning's full update (rounding
/// overrides, pitch table upload, loading) and it is raised as a new update in flight; the tuning
/// stays shown, and nothing waits any more.
pub proof fn law_waiting_tuning_is_sent_on_confirmation(m: PresenterModel)
    requires
        spec_presenter_wf(m),
        m.tuner.flags.is_another_update_pending,
        m.tuner.keys.len() > 0,
    ensures
        ({
            let (m1, r) = spec_on_tuning_updated_presenter(m);
            &&& r.actions.contains(ActionView::Send(spec_tuning_update_commands(m.tuner.flags, m.tuner.keys, true)))
            &&& r.events == seq![ProtocolEvent::UpdatingTuning]
            &&& m1.tuner.flags.is_already_updating
            &&& !m1.tuner.flags.is_another_update_pending
            &&& m1.tuner.keys == m.tuner.keys
        }),
{
    let (m1, r) = spec_on_tuning_updated_presenter(m);
    let i: int = if m.is_awaiting_confirmation { 1 } else { 0 };
    assert(r.actions[i] == ActionView::Send(spec_tuning_update_commands(m.tuner.flags, m.tuner.keys, true)));
}

/// The presenter never marks a tuning update in flight without sending it: whenever the
/// confirmation of an update raises a new update in flight, its actions send the tuning, and
/// otherwise they send nothing.
pub proof fn law_confirmation_sends_exactly_when_raising_an_update(m: PresenterModel)
    requires
        spec_presenter_wf(m),
    ensures
        ({
            let (m1, r) = spec_on_tuning_updated_presenter(m);
            &&& r.events.contains(ProtocolEvent::UpdatingTuning)
                <==> r.actions.contains(ActionView::Send(spec_tuning_update_commands(m.tuner.flags, m.tuner.keys, true)))
            &&& (forall|i: int| 0 <= i < r.actions.len() && (#[trigger] r.actions[i]) is Send
                ==> r.events == seq![ProtocolEvent::UpdatingTuning])
        }),
{
    let (m1, r) = spec_on_tuning_updated_presenter(m);
    let send = ActionView::Send(spec_tuning_update_commands(m.tuner.flags, m.tuner.keys, true));
    let i: int = if m.is_awaiting_confirmation { 1 } else { 0 };
    if r.events.contains(ProtocolEvent::UpdatingTuning) {
        assert(r.actions[i] == send);
    }
    if r.actions.contains(send) {
        let j = choose|j: int| 0 <= j < r.actions.len() && r.actions[j] == send;
        assert(r.actions[j] is Send);
        assert(r.events.len() > 0);
        assert(r.events[0] == ProtocolEvent::UpdatingTuning);
    }
}

} // verus!
