//! Properties of the tuning bridge that span its components.

use vstd::prelude::*;
use crate::continuum_protocol::{
    spec_elapsed, spec_interpret, spec_note_arrival, spec_on_message, DownloadStatus, ProtocolState,
    TuningStatus, CC_DOWNLOAD_MARKER, CC_GRID, CONTROL_CHANNEL0, DOWNLOAD_GAP_MS, DOWNLOAD_WAIT_MS,
};
use crate::global::spec_override_note_names;
use crate::midi_manager::{spec_monitor_step, MidiManagerState, MIDI_WAIT_MS};
use crate::i_continuum_protocol::ProtocolEvent;
use crate::midi_codec::{
    lemma_control_change_round_trip, spec_channel_message_bytes, spec_parse_live_event, ChannelMessage,
    MidiEvent,
};
use crate::midi_command::{spec_command_messages, MidiCommand};
use crate::midi_command::spec_command_valid;
use crate::tuner::{
    lemma_keys_commands_valid, spec_commands_valid, spec_cc, spec_key_commands, spec_keys_commands, spec_pitch_table_commands, spec_rounding_commands,
    spec_on_tuning_updated, spec_override_note_no, spec_pitch_table_index, spec_pitch_tables,
    spec_signalled, spec_tune, spec_tuner_wf, spec_tuning_update_commands, Key, TunerFlags, TunerModel,
};

verus! {

/// The state after a sequence of tunings has been received, one after another.
pub open spec fn spec_tune_all(m: TunerModel, tunings: Seq<Seq<Key>>) -> TunerModel
    decreases tunings.len(),
{
    if tunings.len() == 0 {
        m
    } else {
        spec_tune(spec_tune_all(m, tunings.drop_last()), tunings.last()).0
    }
}

/// While a tuning update is in flight, the tunings that arrive are not sent; the most recent of
/// them is kept, and it alone is sent, as a full update, when the instrument confirms the update
/// in flight, which then stays in flight for it.
pub proof fn law_tunings_coalesce_while_updating(m: TunerModel, tunings: Seq<Seq<Key>>)
    requires
        spec_tuner_wf(m),
        m.flags.is_already_updating,
        tunings.len() > 0,
        tunings.last().len() > 0,
    ensures
        forall|i: int| 0 <= i < tunings.len()
            ==> !(#[trigger] spec_tune(spec_tune_all(m, tunings.take(i)), tunings[i])).1,
        spec_tune_all(m, tunings).keys == tunings.last(),
        spec_on_tuning_updated(spec_tune_all(m, tunings)).1,
        spec_on_tuning_updated(spec_tune_all(m, tunings)).0.flags.is_already_updating,
        !spec_on_tuning_updated(spec_tune_all(m, tunings)).0.flags.is_another_update_pending,
        spec_on_tuning_updated(spec_tune_all(m, tunings)).0.keys == tunings.last(),
    decreases tunings.len(),
{
    lemma_tune_all_keeps_updating(m, tunings);
    assert forall|i: int| 0 <= i < tunings.len()
        implies !(#[trigger] spec_tune(spec_tune_all(m, tunings.take(i)), tunings[i])).1 by {
        lemma_tune_all_keeps_updating(m, tunings.take(i));
    }
}

/// Receiving tunings while an update is in flight keeps it in flight, with the latest tuning's keys.
proof fn lemma_tune_all_keeps_updating(m: TunerModel, tunings: Seq<Seq<Key>>)
    requires
        m.flags.is_already_updating,
    ensures
        spec_tune_all(m, tunings).flags.is_already_updating,
        tunings.len() > 0 ==> spec_tune_all(m, tunings).flags.is_another_update_pending,
        tunings.len() > 0 ==> spec_tune_all(m, tunings).keys == tunings.last(),
        spec_tune_all(m, tunings).flags.pitch_table == m.flags.pitch_table,
    decreases tunings.len(),
{
    if tunings.len() > 0 {
        lemma_tune_all_keeps_updating(m, tunings.drop_last());
    }
}

/// With nothing in flight, a tuning is sent at once; the confirmation of an update for which no
/// further tuning waits leaves nothing in flight.
pub proof fn law_tuning_sent_when_idle_and_settles(m: TunerModel, keys: Seq<Key>)
    requires
        spec_tuner_wf(m),
        !m.flags.is_already_updating,
        keys.len() > 0,
    ensures
        spec_tune(m, keys).1,
        !spec_on_tuning_updated(spec_tune(m, keys).0).1,
        !spec_on_tuning_updated(spec_tune(m, keys).0).0.flags.is_already_updating,
        spec_tuner_wf(spec_on_tuning_updated(spec_tune(m, keys).0).0),
{
}

/// Every tuning update ends by selecting the tuner's pitch table for the current preset.
pub proof fn law_tuning_update_ends_with_pitch_table_selection(f: TunerFlags, keys: Seq<Key>, generate: bool)
    ensures
        spec_tuning_update_commands(f, keys, generate).last()
            == (MidiCommand::ControlChange { channel: 16, cc_no: 51, value: f.pitch_table }),
{
}

/// The instrument confirms a tuning update by reporting, on channel 16, the pitch table that the
/// update selected. Once the update has been signalled, the protocol layer reads the echo of the
/// update's last message as that confirmation: it reports the tuning updated, and no update is
/// awaited any more.
pub proof fn law_update_confirmed_by_its_echo(
    p: ProtocolState,
    f: TunerFlags,
    keys: Seq<Key>,
    generate: bool,
    now: u64,
)
    requires
        f.pitch_table < 128,
    ensures
        ({
            let last = spec_tuning_update_commands(f, keys, generate).last();
            let echo = spec_command_messages(last)[0];
            let (p2, events) = spec_on_message(spec_signalled(p), echo, now, f.pitch_table);
            &&& p2.tuning_status == TuningStatus::Idle
            &&& events.last() == ProtocolEvent::TuningUpdated
        }),
{
    law_tuning_update_ends_with_pitch_table_selection(f, keys, generate);
    lemma_control_change_round_trip(16, 51, f.pitch_table);
    let echo = spec_channel_message_bytes(16, ChannelMessage::Controller { controller: 51, value: f.pitch_table });
    let (s1, e1) = spec_note_arrival(spec_signalled(p), now);
    assert(s1.tuning_status == TuningStatus::Tuning);
}

/// A report of any other pitch table (such as that of a preset loaded on the instrument) does
/// not confirm an awaited tuning update; and with no update awaited, nothing confirms one.
pub proof fn law_only_the_awaited_table_confirms(p: ProtocolState, message: Seq<u8>, now: u64, pitch_table: u8)
    requires
        spec_parse_live_event(message) is Some,
        !(p.tuning_status == TuningStatus::Tuning && spec_parse_live_event(message)
            == Some(MidiEvent::ControlChange { channel: CONTROL_CHANNEL0, controller: CC_GRID, value: pitch_table })),
    ensures
        !spec_on_message(p, message, now, pitch_table).1.contains(ProtocolEvent::TuningUpdated),
        spec_on_message(p, message, now, pitch_table).0.tuning_status == p.tuning_status,
{
    let (s1, e1) = spec_note_arrival(p, now);
    let (s2, e2) = spec_interpret(s1, spec_parse_live_event(message)->0, pitch_table);
    assert(!e1.contains(ProtocolEvent::TuningUpdated));
    assert(!e2.contains(ProtocolEvent::TuningUpdated));
    assert(!(e1 + e2).contains(ProtocolEvent::TuningUpdated)) by {
        if (e1 + e2).contains(ProtocolEvent::TuningUpdated) {
            let k = choose|k: int| 0 <= k < (e1 + e2).len() && (e1 + e2)[k] == ProtocolEvent::TuningUpdated;
            if k < e1.len() {
                assert(e1[k] == ProtocolEvent::TuningUpdated);
            } else {
                assert(e2[k - e1.len()] == ProtocolEvent::TuningUpdated);
            }
        }
    }
}

/// A reported completion of the download leaves it complete, unless the message that arrived
/// after the gap ending the download is itself a download marker.
pub proof fn law_download_completion_is_recorded(p: ProtocolState, message: Seq<u8>, now: u64, pitch_table: u8)
    requires
        spec_parse_live_event(message) is Some,
        !(spec_parse_live_event(message)->0 matches MidiEvent::ControlChange { channel, controller, .. }
            && channel == CONTROL_CHANNEL0 && controller == CC_DOWNLOAD_MARKER),
        spec_on_message(p, message, now, pitch_table).1.contains(ProtocolEvent::DownloadCompleted),
    ensures
        spec_on_message(p, message, now, pitch_table).0.download_status == DownloadStatus::Complete,
        !spec_on_message(p, message, now, pitch_table).0.is_monitoring_download,
{
    let (s1, e1) = spec_note_arrival(p, now);
    let ev = spec_parse_live_event(message)->0;
    let (s2, e2) = spec_interpret(s1, ev, pitch_table);
    if e2.contains(ProtocolEvent::DownloadCompleted) {
    } else {
        let k = choose|k: int| 0 <= k < (e1 + e2).len() && (e1 + e2)[k] == ProtocolEvent::DownloadCompleted;
        if k >= e1.len() {
            assert(e2[k - e1.len()] == ProtocolEvent::DownloadCompleted);
        }
        assert(e1.contains(ProtocolEvent::DownloadCompleted));
        assert(s1.download_status == DownloadStatus::Complete);
        assert(!s1.is_monitoring_download);
    }
}

/// The names of the twelve pitch classes, from C.
pub open spec fn spec_pitch_class_names() -> Seq<Seq<char>> {
    seq!["C".view(), "C#".view(), "D".view(), "D#".view(), "E".view(), "F".view(), "F#".view(),
        "G".view(), "G#".view(), "A".view(), "A#".view(), "B".view()]
}

/// Each root frequency override choice other than the first names the 12-TET note that overrides
/// the root frequency: the choices run from the F# below middle C (note 54) to the F above it
/// (note 65), and the name shown for each is the name of its note's pitch class.
pub proof fn law_override_names_match_override_notes(index: usize)
    requires
        1 <= index <= 12,
    ensures
        54 <= spec_override_note_no(index) <= 65,
        spec_override_note_names()[index as int]
            == spec_pitch_class_names()[spec_override_note_no(index) % 12],
{
}

/// Selecting the pitch table at an index of the pitch table list makes that index the selected
/// one; and the default pitch table is in the list, at index 0.
pub proof fn law_pitch_table_index_round_trip(index: int)
    requires
        0 <= index < 8,
    ensures
        spec_pitch_table_index(spec_pitch_tables()[index]) == index,
        spec_pitch_tables()[spec_pitch_table_index(80)] == 80,
        spec_pitch_tables().contains(80),
{
    assert(spec_pitch_tables()[0] == 80);
}

/// Whether a command is a control change on channel 16.
pub open spec fn spec_on_channel_16(c: MidiCommand) -> bool {
    match c {
        MidiCommand::ControlChange { channel, .. } => channel == 16,
        _ => false,
    }
}

/// Each key retuning command is a control change on channel 16.
proof fn lemma_keys_commands_on_channel_16(keys: Seq<Key>)
    ensures
        forall|i: int| 0 <= i < spec_keys_commands(keys).len()
            ==> spec_on_channel_16(#[trigger] spec_keys_commands(keys)[i]),
    decreases keys.len(),
{
    if keys.len() > 0 {
        lemma_keys_commands_on_channel_16(keys.drop_last());
        let a = spec_keys_commands(keys.drop_last());
        let b = spec_key_commands(keys.last());
        assert forall|i: int| 0 <= i < (a + b).len()
            implies spec_on_channel_16(#[trigger] (a + b)[i]) by {
            if i < a.len() {
                assert((a + b)[i] == a[i]);
            } else {
                assert((a + b)[i] == b[i - a.len()]);
            }
        }
    }
}

/// A tuning update overrides the preset's rounding only as the player has chosen: it turns
/// initial rounding on (channel 1 controller 28 at 127) exactly when the initial rounding override
/// is on, and it sets rounding mode normal (matrix poke 10 to 0) exactly when the rounding rate
/// override is on, and then with the chosen rounding rate (channel 1 controller 25), which it sets
/// only then.
pub proof fn law_rounding_overrides_only_when_on(f: TunerFlags, keys: Seq<Key>, generate: bool)
    ensures
        spec_tuning_update_commands(f, keys, generate).contains(spec_cc(1, 28, 127))
            <==> f.override_rounding_initial,
        spec_tuning_update_commands(f, keys, generate).contains(MidiCommand::MatrixPoke { poke_id: 10, poke_value: 0 })
            <==> f.override_rounding_rate,
        f.override_rounding_rate ==> spec_tuning_update_commands(f, keys, generate).contains(
            spec_cc(1, 25, f.rounding_rate)),
        forall|v: u8| #[trigger] spec_tuning_update_commands(f, keys, generate).contains(spec_cc(1, 25, v))
            ==> f.override_rounding_rate && v == f.rounding_rate,
{
    let r = spec_rounding_commands(f);
    let u = if generate { spec_pitch_table_commands(f.pitch_table, keys) } else { seq![] };
    let c = spec_tuning_update_commands(f, keys, generate);
    assert(c == r + u + seq![spec_cc(16, 51, f.pitch_table)]);
    lemma_keys_commands_on_channel_16(keys);
    let k = spec_keys_commands(keys);
    // Every command after the rounding overrides is a control change on channel 16.
    assert forall|i: int| r.len() <= i < c.len()
        implies spec_on_channel_16(#[trigger] c[i]) by {
        let j = i - r.len();
        if j < u.len() {
            assert(c[i] == u[j]);
            if generate {
                if 1 <= j < 1 + k.len() {
                    assert(u[j] == k[j - 1]);
                }
            }
        } else {
            assert(c[i] == spec_cc(16, 51, f.pitch_table));
        }
    }
    assert forall|i: int| 0 <= i < r.len() implies c[i] == #[trigger] r[i] by {}
    if f.override_rounding_initial {
        assert(c[0] == spec_cc(1, 28, 127));
    }
    if c.contains(spec_cc(1, 28, 127)) {
        let i = choose|i: int| 0 <= i < c.len() && c[i] == spec_cc(1, 28, 127);
        if i >= r.len() {
            assert(spec_on_channel_16(c[i]));
        }
        assert(r.contains(spec_cc(1, 28, 127)));
    }
    if f.override_rounding_rate {
        let o = if f.override_rounding_initial { 1int } else { 0int };
        assert(c[o] == MidiCommand::MatrixPoke { poke_id: 10, poke_value: 0 });
        assert(c[o + 1] == spec_cc(1, 25, f.rounding_rate));
    }
    if c.contains(MidiCommand::MatrixPoke { poke_id: 10, poke_value: 0 }) {
        let i = choose|i: int| 0 <= i < c.len() && c[i] == MidiCommand::MatrixPoke { poke_id: 10, poke_value: 0 };
        if i >= r.len() {
            assert(spec_on_channel_16(c[i]));
        }
        assert(r.contains(MidiCommand::MatrixPoke { poke_id: 10, poke_value: 0 }));
    }
    assert forall|v: u8| #[trigger] c.contains(spec_cc(1, 25, v))
        implies f.override_rounding_rate && v == f.rounding_rate by {
        let i = choose|i: int| 0 <= i < c.len() && c[i] == spec_cc(1, 25, v);
        if i >= r.len() {
            assert(spec_on_channel_16(c[i]));
        }
        assert(r[i] == spec_cc(1, 25, v));
    }
}

/// Every command of a tuning update can be written as MIDI: each control change is on a 1-based
/// channel.
pub proof fn law_tuning_updates_are_writable(f: TunerFlags, keys: Seq<Key>, generate: bool)
    ensures
        spec_commands_valid(spec_tuning_update_commands(f, keys, generate)),
{
    let r = spec_rounding_commands(f);
    let u = if generate { spec_pitch_table_commands(f.pitch_table, keys) } else { seq![] };
    let c = spec_tuning_update_commands(f, keys, generate);
    let k = spec_keys_commands(keys);
    lemma_keys_commands_valid(keys);
    assert forall|i: int| 0 <= i < c.len() implies spec_command_valid(#[trigger] c[i]) by {
        if i < r.len() {
            assert(c[i] == r[i]);
        } else if i < r.len() + u.len() {
            let j = i - r.len();
            assert(c[i] == u[j]);
            if generate && 1 <= j < 1 + k.len() {
                assert(u[j] == k[j - 1]);
            }
        } else {
            assert(c[i] == spec_cc(16, 51, f.pitch_table));
        }
    }
}

/// The protocol state after the first `n` of the messages `msgs`, received at the times `ts`.
pub open spec fn spec_state_after(s: ProtocolState, msgs: Seq<Seq<u8>>, ts: Seq<u64>, pitch_table: u8, n: nat)
    -> ProtocolState
    decreases n,
{
    if n == 0 {
        s
    } else {
        spec_on_message(spec_state_after(s, msgs, ts, pitch_table, (n - 1) as nat), msgs[n - 1], ts[n - 1],
            pitch_table).0
    }
}

/// The events raised by message `i` of `msgs`, received at the times `ts`.
pub open spec fn spec_events_of(s: ProtocolState, msgs: Seq<Seq<u8>>, ts: Seq<u64>, pitch_table: u8, i: nat)
    -> Seq<ProtocolEvent>
{
    spec_on_message(spec_state_after(s, msgs, ts, pitch_table, i), msgs[i as int], ts[i as int], pitch_table).1
}

/// What the download timing rules need of a run of messages that carry no download marker or
/// program change (so that only their arrival times matter), starting `DOWNLOAD_WAIT_MS` before
/// message `k` at the earliest and ending with the gap before message `j`.
pub open spec fn spec_download_timing(msgs: Seq<Seq<u8>>, ts: Seq<u64>, t0: u64, k: nat, j: nat) -> bool {
    &&& msgs.len() == ts.len()
    &&& k < j < ts.len()
    &&& forall|i: int| 0 <= i < msgs.len() ==> spec_parse_live_event(#[trigger] msgs[i]) == Some(MidiEvent::Other)
    // Message `k` is the first at least six seconds after data started to arrive.
    &&& forall|i: int| 0 <= i < k ==> spec_elapsed(#[trigger] ts[i], t0) < DOWNLOAD_WAIT_MS
    &&& spec_elapsed(ts[k as int], t0) >= DOWNLOAD_WAIT_MS
    // Message `j` is the first after `k` to follow a gap of at least 200 ms.
    &&& forall|i: int| k < i < j ==> spec_elapsed(#[trigger] ts[i], ts[i - 1]) < DOWNLOAD_GAP_MS
    &&& spec_elapsed(ts[j as int], ts[j - 1]) >= DOWNLOAD_GAP_MS
}

/// The state of the download after each prefix of such a run.
proof fn lemma_download_prefix(s: ProtocolState, msgs: Seq<Seq<u8>>, ts: Seq<u64>, pitch_table: u8,
    t0: u64, k: nat, j: nat, i: nat)
    requires
        !s.is_monitoring_download,
        spec_download_timing(msgs, ts, t0, k, j),
        i <= j + 1,
    ensures
        ({
            let s0 = ProtocolState {
                download_status: DownloadStatus::Waiting,
                download_wait_start_ms: Some(t0),
                ..s
            };
            let st = spec_state_after(s0, msgs, ts, pitch_table, i);
            &&& i <= k ==> st.download_status == DownloadStatus::Waiting
                && st.download_wait_start_ms == Some(t0) && !st.is_monitoring_download
            &&& k < i <= j ==> st.download_status == DownloadStatus::Waiting
                && st.is_monitoring_download && st.last_message_ms == Some(ts[i - 1])
            &&& i == j + 1 ==> st.download_status == DownloadStatus::Complete
            &&& i > 0 ==> spec_events_of(s0, msgs, ts, pitch_table, (i - 1) as nat) == (if i == j + 1 {
                seq![ProtocolEvent::DownloadCompleted]
            } else {
                Seq::<ProtocolEvent>::empty()
            })
        }),
    decreases i,
{
    let s0 = ProtocolState { download_status: DownloadStatus::Waiting, download_wait_start_ms: Some(t0), ..s };
    if i > 0 {
        lemma_download_prefix(s, msgs, ts, pitch_table, t0, k, j, (i - 1) as nat);
        let n = (i - 1) as nat;
        let prev = spec_state_after(s0, msgs, ts, pitch_table, n);
        assert(spec_parse_live_event(msgs[n as int]) == Some(MidiEvent::Other));
        let (s1, e1) = spec_note_arrival(prev, ts[n as int]);
        let (s2, e2) = spec_interpret(s1, MidiEvent::Other, pitch_table);
        assert(e2 =~= Seq::<ProtocolEvent>::empty());
        if n < k {
            assert(spec_elapsed(ts[n as int], t0) < DOWNLOAD_WAIT_MS);
        } else if n > k {
            assert(spec_elapsed(ts[n as int], ts[n - 1]) < DOWNLOAD_GAP_MS || n == j);
        }
        assert(e1 + e2 =~= e1);
    }
}

/// The instrument's initial data download is timed by its messages, once data has started to
/// arrive at `t0`: in a run of messages that carry no download marker or program change, the
/// download is monitored from the first message at least six seconds after `t0` (message `k`),
/// and the first message after it to follow a gap of at least 200 ms (message `j`) completes the
/// download and raises its completion, once; until then the download is not complete and no
/// message raises anything.
pub proof fn law_download_completes_after_the_first_quiet_gap(s: ProtocolState, msgs: Seq<Seq<u8>>,
    ts: Seq<u64>, pitch_table: u8, t0: u64, k: nat, j: nat)
    requires
        !s.is_monitoring_download,
        spec_download_timing(msgs, ts, t0, k, j),
    ensures
        ({
            let s0 = ProtocolState {
                download_status: DownloadStatus::Waiting,
                download_wait_start_ms: Some(t0),
                ..s
            };
            &&& forall|i: nat| i < j ==> (#[trigger] spec_events_of(s0, msgs, ts, pitch_table, i))
                == Seq::<ProtocolEvent>::empty()
            &&& forall|i: nat| i <= j ==> (#[trigger] spec_state_after(s0, msgs, ts, pitch_table, i)).download_status
                != DownloadStatus::Complete
            &&& spec_state_after(s0, msgs, ts, pitch_table, k + 1).is_monitoring_download
            &&& spec_events_of(s0, msgs, ts, pitch_table, j) == seq![ProtocolEvent::DownloadCompleted]
            &&& spec_state_after(s0, msgs, ts, pitch_table, j + 1).download_status == DownloadStatus::Complete
        }),
{
    let s0 = ProtocolState { download_status: DownloadStatus::Waiting, download_wait_start_ms: Some(t0), ..s };
    assert forall|i: nat| i < j implies (#[trigger] spec_events_of(s0, msgs, ts, pitch_table, i))
        == Seq::<ProtocolEvent>::empty() by {
        lemma_download_prefix(s, msgs, ts, pitch_table, t0, k, j, i + 1);
    }
    assert forall|i: nat| i <= j implies (#[trigger] spec_state_after(s0, msgs, ts, pitch_table, i)).download_status
        != DownloadStatus::Complete by {
        lemma_download_prefix(s, msgs, ts, pitch_table, t0, k, j, i);
    }
    lemma_download_prefix(s, msgs, ts, pitch_table, t0, k, j, k + 1);
    lemma_download_prefix(s, msgs, ts, pitch_table, t0, k, j, j + 1);
}

/// Data that was arriving and has stopped is reported by the connection monitor once, and the
/// instrument sending again then counts as data starting to arrive: after the monitor reports
/// that data has stopped, no data is arriving, the next message recorded is the first (as
/// `MidiManager::record_message` reports it, when `last_message_received_ms` is `None`). Data
/// is reported stopped exactly when more than `MIDI_WAIT_MS` have passed since the last message.
pub proof fn law_stopped_data_restarts_with_the_next_message(s: MidiManagerState, now: u64)
    requires
        s.input_state.is_receiving_data,
    ensures
        spec_monitor_step(s, now).1 ==> {
            let s1 = spec_monitor_step(s, now).0;
            &&& !s1.input_state.is_receiving_data
            &&& s1.input_state.last_message_received_ms is None
        },
        spec_monitor_step(s, now).1 <==> match s.input_state.last_message_received_ms {
            Some(last) => now > last && now - last > MIDI_WAIT_MS,
            None => false,
        },
{
}

/// Whether `message` is a download marker (channel 16, controller 109).
pub open spec fn spec_is_download_marker(message: Seq<u8>) -> bool {
    spec_parse_live_event(message) matches Some(MidiEvent::ControlChange { channel, controller, .. })
        && channel == CONTROL_CHANNEL0 && controller == CC_DOWNLOAD_MARKER
}

/// Once the initial data download is complete, it stays complete and is reported complete no more:
/// no later message starts monitoring the download or raises its completion, and only a download
/// marker changes the download status.
pub proof fn law_download_completes_once(s: ProtocolState, message: Seq<u8>, now: u64, pitch_table: u8)
    requires
        s.download_status == DownloadStatus::Complete,
        !s.is_monitoring_download,
        spec_parse_live_event(message) is Some,
    ensures
        !spec_on_message(s, message, now, pitch_table).0.is_monitoring_download,
        !spec_on_message(s, message, now, pitch_table).1.contains(ProtocolEvent::DownloadCompleted),
        !spec_is_download_marker(message)
            ==> spec_on_message(s, message, now, pitch_table).0.download_status == DownloadStatus::Complete,
{
    let (s1, e1) = spec_note_arrival(s, now);
    let (s2, e2) = spec_interpret(s1, spec_parse_live_event(message)->0, pitch_table);
    assert(e1 =~= Seq::<ProtocolEvent>::empty());
    assert(!e2.contains(ProtocolEvent::DownloadCompleted));
    assert(e1 + e2 =~= e2);
}

} // verus!
