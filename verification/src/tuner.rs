//! The tuner: it turns tunings into pitch table updates for the instrument and schedules them so
//! that at most one update is in flight at a time.

use vstd::prelude::*;
use crate::continuum_protocol::{ContinuumProtocol, ProtocolState, TuningStatus};
use crate::i_continuum_protocol::{ProtocolEvent, TuningUpdateSignaller};
use crate::midi_command::{spec_command_valid, MidiCommand};

verus! {

/// The retuning of one MIDI key: the key is to sound as key `to_number` (the key with the closest
/// standard pitch at or below the required pitch) raised by an offset, a fraction of a semitone
/// given as a 14-bit value split into its upper (`offset_msb`) and lower (`offset_lsb`) 7 bits.
#[derive(Clone, Copy, Debug, PartialEq, Eq, Structural)]
pub struct Key {
    pub number: u8,
    pub to_number: u8,
    pub offset_msb: u8,
    pub offset_lsb: u8,
}

/// Splits a 14-bit offset into its upper and lower 7 bits.
pub fn offset_bytes(offset_14bit: u16) -> (r: (u8, u8))
    ensures
        r.0 == (offset_14bit / 128) % 128,
        r.1 == offset_14bit % 128,
        offset_14bit < 16384 ==> r.0 * 128 + r.1 == offset_14bit,
{
    let msb = ((offset_14bit >> 7) & 0x7F) as u8;
    let lsb = (offset_14bit & 0x7F) as u8;
    assert(((offset_14bit >> 7) & 0x7F) == (offset_14bit / 128) % 128) by (bit_vector);
    assert((offset_14bit & 0x7F) == offset_14bit % 128) by (bit_vector);
    (msb, lsb)
}

/// The tuner's scheduling and configuration state.
#[derive(Clone, Copy, Debug, PartialEq, Eq, Structural)]
pub struct TunerFlags {
    /// A tuning update has been sent and not yet confirmed.
    pub is_already_updating: bool,
    /// A tuning arrived while an update was in flight; it is to be sent on confirmation.
    pub is_another_update_pending: bool,
    pub override_rounding_initial: bool,
    pub override_rounding_rate: bool,
    pub rounding_rate: u8,
    /// The MIDI note number whose standard pitch overrides the root frequency, or 0 for none.
    pub root_freq_override_note_no: usize,
    /// The pitch table (custom tuning grid) to which tunings are sent.
    pub pitch_table: u8,
}

/// The abstract state of a tuner: its flags and the current key retunings.
pub struct TunerModel {
    pub flags: TunerFlags,
    pub keys: Seq<Key>,
}

/// A pending update implies one in flight.
pub open spec fn spec_tuner_wf(m: TunerModel) -> bool {
    m.flags.is_another_update_pending ==> m.flags.is_already_updating
}

/// Commands are control changes on 1-based channels or matrix pokes.
pub open spec fn spec_commands_valid(cs: Seq<MidiCommand>) -> bool {
    forall|i: int| 0 <= i < cs.len() ==> spec_command_valid(#[trigger] cs[i])
}

pub open spec fn spec_cc(channel: u8, cc_no: u8, value: u8) -> MidiCommand {
    MidiCommand::ControlChange { channel, cc_no, value }
}

/// The six controller 38 values that retune one key: the from-key and its (zero) tuning, then
/// the to-key and its offset.
pub open spec fn spec_key_commands(k: Key) -> Seq<MidiCommand> {
    seq![
        spec_cc(16, 38, k.number),
        spec_cc(16, 38, 0),
        spec_cc(16, 38, 0),
        spec_cc(16, 38, k.to_number),
        spec_cc(16, 38, k.offset_msb),
        spec_cc(16, 38, k.offset_lsb),
    ]
}

/// The retuning commands for a sequence of keys, in order.
pub open spec fn spec_keys_commands(keys: Seq<Key>) -> Seq<MidiCommand>
    decreases keys.len(),
{
    if keys.len() == 0 {
        seq![]
    } else {
        spec_keys_commands(keys.drop_last()) + spec_key_commands(keys.last())
    }
}

/// Every key retuning command is a control change on channel 16.
pub(crate) proof fn lemma_keys_commands_valid(keys: Seq<Key>)
    ensures
        spec_commands_valid(spec_keys_commands(keys)),
    decreases keys.len(),
{
    if keys.len() > 0 {
        lemma_keys_commands_valid(keys.drop_last());
        let a = spec_keys_commands(keys.drop_last());
        let b = spec_key_commands(keys.last());
        assert forall|i: int| 0 <= i < (a + b).len() implies spec_command_valid(#[trigger] (a + b)[i]) by {
            if i < a.len() {
                assert((a + b)[i] == a[i]);
            } else {
                assert((a + b)[i] == b[i - a.len()]);
            }
        }
    }
}

/// Uploading a pitch table: select it (controller 109), retune each key, then save it (109, 101).
pub open spec fn spec_pitch_table_commands(pitch_table: u8, keys: Seq<Key>) -> Seq<MidiCommand> {
    seq![spec_cc(16, 109, pitch_table)] + spec_keys_commands(keys) + seq![spec_cc(16, 109, 101)]
}

/// The rounding overrides: initial rounding on (channel 1 controller 28 = 127); and rounding mode
/// normal (matrix poke 10 = 0) with the rounding rate (channel 1 controller 25).
pub open spec fn spec_rounding_commands(f: TunerFlags) -> Seq<MidiCommand> {
    (if f.override_rounding_initial { seq![spec_cc(1, 28, 127)] } else { seq![] })
        + (if f.override_rounding_rate {
        seq![MidiCommand::MatrixPoke { poke_id: 10, poke_value: 0 }, spec_cc(1, 25, f.rounding_rate)]
    } else {
        seq![]
    })
}

/// A tuning update: the rounding overrides of the current preset, the pitch table upload when
/// `generate`, and then the loading of the pitch table into the current preset (channel 16
/// controller 51).
pub open spec fn spec_tuning_update_commands(f: TunerFlags, keys: Seq<Key>, generate: bool)
    -> Seq<MidiCommand>
{
    spec_rounding_commands(f) + (if generate { spec_pitch_table_commands(f.pitch_table, keys) } else { seq![] })
        + seq![spec_cc(16, 51, f.pitch_table)]
}

/// The protocol state once a tuning update has been signalled.
pub open spec fn spec_signalled(p: ProtocolState) -> ProtocolState {
    ProtocolState { tuning_status: TuningStatus::Tuning, ..p }
}

/// What the tuner sends: commands for the instrument, and the events the signalling raised.
pub struct TuningSend {
    pub commands: Vec<MidiCommand>,
    pub events: Vec<ProtocolEvent>,
}

/// The effect of a new tuning (its key retunings): stored, and sent at once unless an update is
/// already in flight, in which case it waits. Returns the new state and whether it was sent.
pub open spec fn spec_tune(m: TunerModel, keys: Seq<Key>) -> (TunerModel, bool) {
    if m.flags.is_already_updating {
        (TunerModel { flags: TunerFlags { is_another_update_pending: true, ..m.flags }, keys }, false)
    } else {
        (TunerModel { flags: TunerFlags { is_already_updating: true, ..m.flags }, keys }, true)
    }
}

/// The effect of the instrument's confirmation of the update in flight: a waiting tuning is sent
/// (the update stays in flight); otherwise nothing is in flight any more. Without tuning data,
/// nothing changes. Returns the new state and whether an update was sent.
pub open spec fn spec_on_tuning_updated(m: TunerModel) -> (TunerModel, bool) {
    if m.keys.len() == 0 {
        (m, false)
    } else if m.flags.is_another_update_pending {
        (TunerModel { flags: TunerFlags { is_another_update_pending: false, ..m.flags }, ..m }, true)
    } else {
        (TunerModel { flags: TunerFlags { is_already_updating: false, ..m.flags }, ..m }, false)
    }
}

/// The MIDI note number overriding the root frequency for override choice `index`: none for
/// index 0, and otherwise `index + 53` (index 7, for example, is middle C, note 60).
pub open spec fn spec_override_note_no(index: usize) -> int {
    if index == 0 { 0 } else { index + 53 }
}

/// The pitch tables that the firmware reserves for custom tuning grids: 80 to 87.
pub open spec fn spec_pitch_tables() -> Seq<u8> {
    Seq::new(8, |i: int| (80 + i) as u8)
}

/// The index of `pitch_table` among the pitch tables, or 0 where it is not one of them.
pub open spec fn spec_pitch_table_index(pitch_table: u8) -> int {
    if 80 <= pitch_table <= 87 { pitch_table - 80 } else { 0 }
}

/// The pitch table to use for the pitch table saved in the settings: that table where it is one
/// of the pitch tables, and otherwise the default, 80.
pub fn pitch_table_from_setting(setting: u8) -> (t: u8)
    ensures
        t == (if spec_pitch_tables().contains(setting) { setting } else { 80u8 }),
{
    if 80 <= setting && setting <= 87 {
        assert(spec_pitch_tables()[setting - 80] == setting);
        setting
    } else {
        assert(!spec_pitch_tables().contains(setting)) by {
            if spec_pitch_tables().contains(setting) {
                let k = choose|k: int| 0 <= k < 8 && spec_pitch_tables()[k] == setting;
                assert(spec_pitch_tables()[k] == 80 + k);
            }
        }
        80
    }
}

/// A facility for tuning a Continuum from PitchGrid tunings.
pub struct Tuner {
    flags: TunerFlags,
    keys: Vec<Key>,
}

impl View for Tuner {
    type V = TunerModel;

    closed spec fn view(&self) -> TunerModel {
        TunerModel { flags: self.flags, keys: self.keys@ }
    }
}

impl Tuner {
    /// The flags of a new tuner: nothing in flight, no overrides, the highest rounding rate.
    pub open spec fn new_flags() -> TunerFlags {
        TunerFlags {
            is_already_updating: false,
            is_another_update_pending: false,
            override_rounding_initial: false,
            override_rounding_rate: false,
            rounding_rate: 127,
            root_freq_override_note_no: 0,
            pitch_table: 0,
        }
    }

    pub fn new() -> (t: Self)
        ensures
            t@.flags == (TunerFlags {
                is_already_updating: false,
                is_another_update_pending: false,
                override_rounding_initial: false,
                override_rounding_rate: false,
                rounding_rate: 127,
                root_freq_override_note_no: 0,
                pitch_table: 0,
            }),
            t@.keys == Seq::<Key>::empty(),
            spec_tuner_wf(t@),
    {
        Self {
            flags: TunerFlags {
                is_already_updating: false,
                is_another_update_pending: false,
                override_rounding_initial: false,
                override_rounding_rate: false,
                rounding_rate: 127,
                root_freq_override_note_no: 0,
                pitch_table: 0,
            },
            keys: Vec::new(),
        }
    }

    /// The tuner's flags.
    pub fn flags(&self) -> (f: TunerFlags)
        ensures
            f == self@.flags,
    {
        self.flags
    }

    pub fn init(&mut self, pitch_table: u8)
        ensures
            final(self)@.flags == (TunerFlags { pitch_table, ..old(self)@.flags }),
            final(self)@.keys == old(self)@.keys,
    {
        self.flags.pitch_table = pitch_table;
    }

    /// Receives a tuning, given as the retuning of each key: see `spec_tune`. When it is sent,
    /// the signaller is told that a tuning update is in flight before the commands go out.
    pub fn on_tuning_received(&mut self, keys: Vec<Key>, signaller: &mut ContinuumProtocol)
        -> (sent: TuningSend)
        requires
            spec_tuner_wf(old(self)@),
        ensures
            spec_tuner_wf(final(self)@),
            final(self)@ == spec_tune(old(self)@, keys@).0,
            spec_tune(old(self)@, keys@).1 ==> {
                &&& sent.commands@ == spec_tuning_update_commands(old(self)@.flags, keys@, true)
                &&& final(signaller)@ == spec_signalled(old(signaller)@)
                &&& sent.events@ == seq![ProtocolEvent::UpdatingTuning]
            },
            !spec_tune(old(self)@, keys@).1 ==> {
                &&& sent.commands@ == Seq::<MidiCommand>::empty()
                &&& final(signaller)@ == old(signaller)@
                &&& sent.events@ == Seq::<ProtocolEvent>::empty()
            },
            spec_commands_valid(sent.commands@),
    {
        self.keys = keys;
        // Tunings can arrive much faster than the instrument can update its pitch table, which
        // takes about half a second; so while an update is in flight, a new tuning waits, and
        // only the most recent one is sent once the update is confirmed.
        if self.flags.is_already_updating {
            self.flags.is_another_update_pending = true;
            TuningSend { commands: Vec::new(), events: Vec::new() }
        } else {
            self.flags.is_already_updating = true;
            self.send_tuning_update(true, signaller)
        }
    }

    pub fn has_data(&self) -> (b: bool)
        ensures
            b == (self@.keys.len() > 0),
    {
        self.keys.len() > 0
    }

    pub fn remove_data(&mut self)
        ensures
            final(self)@.flags == (TunerFlags {
                is_already_updating: false,
                is_another_update_pending: false,
                ..old(self)@.flags
            }),
            final(self)@.keys == Seq::<Key>::empty(),
            spec_tuner_wf(final(self)@),
    {
        self.flags.is_already_updating = false;
        self.flags.is_another_update_pending = false;
        self.keys = Vec::new();
    }

    /// If a tuning has been received, sends a tuning update for the instrument's current preset,
    /// without uploading the pitch table again. Returns whether an update has been sent.
    pub fn send_current_preset_update(&mut self, signaller: &mut ContinuumProtocol)
        -> (r: (bool, TuningSend))
        ensures
            r.0 == (old(self)@.keys.len() > 0),
            final(self)@ == old(self)@,
            r.0 ==> {
                &&& r.1.commands@ == spec_tuning_update_commands(old(self)@.flags, old(self)@.keys, false)
                &&& final(signaller)@ == spec_signalled(old(signaller)@)
                &&& r.1.events@ == seq![ProtocolEvent::UpdatingTuning]
            },
            !r.0 ==> {
                &&& r.1.commands@ == Seq::<MidiCommand>::empty()
                &&& final(signaller)@ == old(signaller)@
                &&& r.1.events@ == Seq::<ProtocolEvent>::empty()
            },
            spec_commands_valid(r.1.commands@),
    {
        let can_update = self.has_data();
        if can_update {
            (true, self.send_tuning_update(false, signaller))
        } else {
            (false, TuningSend { commands: Vec::new(), events: Vec::new() })
        }
    }

    pub fn is_root_freq_overridden(&self) -> (b: bool)
        ensures
            b == (self@.flags.root_freq_override_note_no != 0),
    {
        self.flags.root_freq_override_note_no != 0
    }

    /// The MIDI note number whose standard pitch overrides the root frequency, or 0 for none.
    pub fn root_freq_override_note_no(&self) -> (n: usize)
        ensures
            n == self@.flags.root_freq_override_note_no,
    {
        self.flags.root_freq_override_note_no
    }

    /// Sets the root frequency override from the override choice `index`. Returns whether the
    /// tuning is now to be recalculated and sent: when `send_tuning` and a tuning has been received.
    pub fn set_root_freq_override_note_no(&mut self, index: usize, send_tuning: bool) -> (retune: bool)
        requires
            index + 53 <= usize::MAX,
        ensures
            final(self)@.flags == (TunerFlags {
                root_freq_override_note_no: spec_override_note_no(index) as usize,
                ..old(self)@.flags
            }),
            final(self)@.keys == old(self)@.keys,
            retune == (send_tuning && old(self)@.keys.len() > 0),
    {
        let note_no: usize = if index == 0 {
            0  // No override
        } else {
            index + 53  // E.g. for middle C, index = 7, note_no = 60.
        };
        self.flags.root_freq_override_note_no = note_no;
        send_tuning && self.has_data()
    }

    /// Sets whether initial rounding is to be overridden the next time tuning is sent.
    pub fn set_override_rounding_initial(&mut self, value: bool)
        ensures
            final(self)@.flags == (TunerFlags { override_rounding_initial: value, ..old(self)@.flags }),
            final(self)@.keys == old(self)@.keys,
    {
        self.flags.override_rounding_initial = value;
    }

    /// Sets whether rounding rate is to be overridden the next time tuning is sent.
    pub fn set_override_rounding_rate(&mut self, value: bool)
        ensures
            final(self)@.flags == (TunerFlags { override_rounding_rate: value, ..old(self)@.flags }),
            final(self)@.keys == old(self)@.keys,
    {
        self.flags.override_rounding_rate = value;
    }

    /// Sets the rounding rate, if it is to be overridden, the next time tuning is sent.
    pub fn set_rounding_rate(&mut self, rate: u8)
        ensures
            final(self)@.flags == (TunerFlags { rounding_rate: rate, ..old(self)@.flags }),
            final(self)@.keys == old(self)@.keys,
    {
        self.flags.rounding_rate = rate;
    }

    pub fn set_pitch_table(&mut self, pitch_table: u8)
        ensures
            final(self)@.flags == (TunerFlags { pitch_table, ..old(self)@.flags }),
            final(self)@.keys == old(self)@.keys,
    {
        self.flags.pitch_table = pitch_table;
    }

    /// The instrument has confirmed a tuning update: see `spec_on_tuning_updated`. A waiting tuning
    /// is sent as a full update.
    pub fn on_tuning_updated(&mut self, signaller: &mut ContinuumProtocol) -> (sent: TuningSend)
        requires
            spec_tuner_wf(old(self)@),
        ensures
            spec_tuner_wf(final(self)@),
            final(self)@ == spec_on_tuning_updated(old(self)@).0,
            spec_on_tuning_updated(old(self)@).1 ==> {
                &&& sent.commands@ == spec_tuning_update_commands(old(self)@.flags, old(self)@.keys, true)
                &&& final(signaller)@ == spec_signalled(old(signaller)@)
                &&& sent.events@ == seq![ProtocolEvent::UpdatingTuning]
            },
            !spec_on_tuning_updated(old(self)@).1 ==> {
                &&& sent.commands@ == Seq::<MidiCommand>::empty()
                &&& final(signaller)@ == old(signaller)@
                &&& sent.events@ == Seq::<ProtocolEvent>::empty()
            },
            spec_commands_valid(sent.commands@),
    {
        if !self.has_data() {
            // Could be a confirmation of a preset loaded while PitchGrid is not connected.
            return TuningSend { commands: Vec::new(), events: Vec::new() };
        }
        if self.flags.is_another_update_pending {
            self.flags.is_another_update_pending = false;
            self.send_tuning_update(true, signaller)
        } else {
            self.flags.is_already_updating = false;
            TuningSend { commands: Vec::new(), events: Vec::new() }
        }
    }

    /// The index, among the pitch tables, of the selected pitch table, or 0 where it is not one.
    pub fn pitch_table_index(&self) -> (i: usize)
        ensures
            i == spec_pitch_table_index(self@.flags.pitch_table),
    {
        let tables = Self::pitch_tables();
        let n = tables.len();
        let mut i: usize = 0;
        while i < n
            invariant
                n == tables@.len(),
                tables@ == spec_pitch_tables(),
                0 <= i <= n,
                forall|j: int| 0 <= j < i ==> tables@[j] != self@.flags.pitch_table,
            decreases n - i,
        {
            if tables[i] == self.flags.pitch_table {
                return i;
            }
            i = i + 1;
        }
        assert(!(80 <= self@.flags.pitch_table <= 87)) by {
            if 80 <= self@.flags.pitch_table <= 87 {
                assert(tables@[self@.flags.pitch_table - 80] == self@.flags.pitch_table);
            }
        }
        0
    }

    /// The selected pitch table number.
    pub fn pitch_table(&self) -> (t: u8)
        ensures
            t == self@.flags.pitch_table,
    {
        self.flags.pitch_table
    }

    /// The pitch tables that may be selected: 80 to 87.
    pub fn pitch_tables() -> (tables: Vec<u8>)
        ensures
            tables@ == spec_pitch_tables(),
    {
        let mut tables: Vec<u8> = Vec::new();
        let mut t: u8 = 80;
        while t < 88
            invariant
                80 <= t <= 88,
                tables@ =~= Seq::new((t - 80) as nat, |i: int| (80 + i) as u8),
            decreases 88 - t,
        {
            tables.push(t);
            t = t + 1;
        }
        tables
    }

    pub fn default_pitch_table() -> (t: u8)
        ensures
            t == 80,
    {
        80
    }

    /// Sends the instrument a tuning update: see `spec_tuning_update_commands`; `generate` uploads
    /// the pitch table.
    fn send_tuning_update(&self, generate: bool, signaller: &mut ContinuumProtocol)
        -> (sent: TuningSend)
        ensures
            sent.commands@ == spec_tuning_update_commands(self@.flags, self@.keys, generate),
            final(signaller)@ == spec_signalled(old(signaller)@),
            sent.events@ == seq![ProtocolEvent::UpdatingTuning],
            spec_commands_valid(sent.commands@),
    {
        let events = signaller.on_updating_tuning();
        // The rounding overrides update the instrument's current preset.
        let mut commands = self.rounding_commands();
        if generate {
            let mut upload = self.pitch_table_commands();
            commands.append(&mut upload);
        }
        // Load the pitch table into the current preset, for performance.
        commands.push(MidiCommand::ControlChange { channel: 16, cc_no: 51, value: self.flags.pitch_table });
        assert(commands@ =~= spec_tuning_update_commands(self@.flags, self@.keys, generate));
        proof {
            lemma_keys_commands_valid(self@.keys);
        }
        TuningSend { commands, events }
    }

    fn pitch_table_commands(&self) -> (commands: Vec<MidiCommand>)
        ensures
            commands@ == spec_pitch_table_commands(self@.flags.pitch_table, self@.keys),
    {
        let pitch_table = self.flags.pitch_table;
        let mut commands: Vec<MidiCommand> = Vec::new();
        // Select the pitch table to update.
        commands.push(MidiCommand::ControlChange { channel: 16, cc_no: 109, value: pitch_table });
        let n = self.keys.len();
        for i in 0..n
            invariant
                n == self@.keys.len(),
                commands@ == seq![spec_cc(16, 109, pitch_table)]
                    + spec_keys_commands(self@.keys.take(i as int)),
        {
            let key = self.keys[i];
            commands.push(MidiCommand::ControlChange { channel: 16, cc_no: 38, value: key.number });
            commands.push(MidiCommand::ControlChange { channel: 16, cc_no: 38, value: 0 });
            commands.push(MidiCommand::ControlChange { channel: 16, cc_no: 38, value: 0 });
            commands.push(MidiCommand::ControlChange { channel: 16, cc_no: 38, value: key.to_number });
            commands.push(MidiCommand::ControlChange { channel: 16, cc_no: 38, value: key.offset_msb });
            commands.push(MidiCommand::ControlChange { channel: 16, cc_no: 38, value: key.offset_lsb });
            assert(self@.keys.take(i + 1).drop_last() =~= self@.keys.take(i as int));
            assert(commands@ =~= seq![spec_cc(16, 109, pitch_table)]
                + spec_keys_commands(self@.keys.take(i + 1)));
        }
        assert(self@.keys.take(n as int) =~= self@.keys);
        // Save the pitch table on the instrument.
        commands.push(MidiCommand::ControlChange { channel: 16, cc_no: 109, value: 101 });
        commands
    }

    fn rounding_commands(&self) -> (commands: Vec<MidiCommand>)
        ensures
            commands@ == spec_rounding_commands(self@.flags),
    {
        let mut commands: Vec<MidiCommand> = Vec::new();
        if self.flags.override_rounding_initial {
            // Turn on Rounding Initial.
            commands.push(MidiCommand::ControlChange { channel: 1, cc_no: 28, value: 127 });
        }
        if self.flags.override_rounding_rate {
            // Rounding Mode Normal, then the Rounding Rate.
            commands.push(MidiCommand::MatrixPoke { poke_id: 10, poke_value: 0 });
            commands.push(MidiCommand::ControlChange { channel: 1, cc_no: 25, value: self.flags.rounding_rate });
        }
        assert(commands@ =~= spec_rounding_commands(self@.flags));
        commands
    }
}

} // verus!
