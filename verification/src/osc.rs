//! The OSC link with PitchGrid: its listening ports, the messages it accepts, its heartbeat and
//! the monitoring of the connection.

use vstd::prelude::*;
use crate::text::str_eq;

verus! {

/// PitchGrid listens on this port.
pub const SEND_TO_PITCHGRID_PORT: u16 = 34562;
/// If no message arrives from PitchGrid for longer than this, it is no longer connected.
pub const PITCHGRID_TIMEOUT_MS: u64 = 2000;

pub const HEARTBEAT_ADDR: &'static str = "/pitchgrid/heartbeat";
pub const TUNING_ADDR: &'static str = "/pitchgrid/plugin/tuning";
pub const MAPPING_ADDR: &'static str = "/pitchgrid/plugin/mapping";
pub const SPECTRUM_ADDR: &'static str = "/pitchgrid/plugin/spectrum";
pub const CONSONANCE_ADDR: &'static str = "/pitchgrid/plugin/consonance";
pub const NOTE_ON_ADDR: &'static str = "/pitchgrid/plugin/note_on";
pub const NOTE_OFF_ADDR: &'static str = "/pitchgrid/plugin/note_off";

/// The kind of an OSC message argument, as far as this application reads it.
#[derive(Clone, Copy, Debug, PartialEq, Eq, Structural)]
pub enum OscArg {
    Int(i32),
    /// A 32-bit float, given by its IEEE 754 bits.
    Float(u32),
    Other,
}

/// What a message from PitchGrid is.
#[derive(Clone, Copy, Debug, PartialEq, Eq, Structural)]
pub enum OscMessageKind {
    /// A heartbeat, acknowledged and otherwise ignored.
    Heartbeat,
    /// Tuning parameters.
    Tuning,
    /// A message this application does not use (spectrum, consonance, mapping, notes).
    Ignored,
    /// A message with an unknown address.
    Unknown,
}

/// An event of the OSC link for the application.
#[derive(Clone, Copy, Debug, PartialEq, Eq, Structural)]
pub enum OscEvent {
    PitchGridConnectedChanged,
    TuningReceived,
}

/// The ports on which this application may listen: 34560 to 34570, without PitchGrid's own.
pub open spec fn spec_listening_ports() -> Seq<u16> {
    Seq::new(11, |i: int| (34560 + i) as u16).remove(2)
}

/// The index of `port` among the listening ports, or 0 where it is not one of them.
pub open spec fn spec_listening_port_index(port: u16) -> int {
    if port == 34560 || port == 34561 {
        port - 34560
    } else if 34563 <= port <= 34570 {
        port - 34561
    } else {
        0
    }
}

/// The kind of a message with address `addr`.
pub open spec fn spec_message_kind(addr: Seq<char>) -> OscMessageKind {
    if addr == HEARTBEAT_ADDR@ {
        OscMessageKind::Heartbeat
    } else if addr == TUNING_ADDR@ {
        OscMessageKind::Tuning
    } else if addr == SPECTRUM_ADDR@ || addr == CONSONANCE_ADDR@ || addr == MAPPING_ADDR@
        || addr == NOTE_ON_ADDR@ || addr == NOTE_OFF_ADDR@ {
        OscMessageKind::Ignored
    } else {
        OscMessageKind::Unknown
    }
}

/// Whether the arguments of a tuning message are what PitchGrid sends: mode (int), root
/// frequency, stretch, skew and mode offset (floats), then steps and the MOS a and b (ints).
pub open spec fn spec_is_tuning_args(args: Seq<OscArg>) -> bool {
    &&& args.len() == 8
    &&& args[0] is Int
    &&& args[1] is Float
    &&& args[2] is Float
    &&& args[3] is Float
    &&& args[4] is Float
    &&& args[5] is Int
    &&& args[6] is Int
    &&& args[7] is Int
}

/// The bytes of the OSC heartbeat message: the address, null-padded to a multiple of four
/// bytes, the type tags ",ii" null-padded likewise, then the arguments 1 and `port` as
/// big-endian 32-bit integers.
pub open spec fn spec_heartbeat_bytes(port: u16) -> Seq<u8> {
    seq![0x2fu8, 0x70, 0x69, 0x74, 0x63, 0x68, 0x67, 0x72, 0x69, 0x64,
        0x2f, 0x68, 0x65, 0x61, 0x72, 0x74, 0x62, 0x65, 0x61, 0x74,
        0, 0, 0, 0,
        0x2c, 0x69, 0x69, 0,
        0, 0, 0, 1,
        0, 0, (port / 256) as u8, (port % 256) as u8]
}

/// `n` null bytes.
pub open spec fn spec_nulls(n: int) -> Seq<u8> {
    Seq::new(n as nat, |i: int| 0u8)
}

/// An OSC string: its bytes followed by one to four null bytes, to a multiple of four bytes.
pub open spec fn spec_osc_string(b: Seq<u8>) -> Seq<u8> {
    b + spec_nulls(4 - b.len() % 4)
}

/// The bytes of a text of ASCII characters.
pub open spec fn spec_ascii_bytes(s: Seq<char>) -> Seq<u8> {
    s.map_values(|c: char| c as u8)
}

/// Whether every character of `s` is ASCII.
pub open spec fn spec_is_ascii(s: Seq<char>) -> bool {
    forall|i: int| 0 <= i < s.len() ==> (#[trigger] s[i] as u32) < 128
}

/// A 32-bit integer as four big-endian bytes of its two's complement.
pub open spec fn spec_be_i32(x: i32) -> Seq<u8> {
    let u = x as u32;
    seq![(u / 0x1000000) as u8, (u / 0x10000 % 256) as u8, (u / 0x100 % 256) as u8, (u % 256) as u8]
}

/// Integers as big-endian bytes, in order.
pub open spec fn spec_be_i32s(xs: Seq<i32>) -> Seq<u8>
    decreases xs.len(),
{
    if xs.len() == 0 {
        seq![]
    } else {
        spec_be_i32s(xs.drop_last()) + spec_be_i32(xs.last())
    }
}

/// The bytes of an OSC message with address `addr` and integer arguments `args`: the address as
/// an OSC string, then the type tags ("," and an "i" per argument) as an OSC string, then each
/// argument as four big-endian bytes.
pub open spec fn spec_osc_int_message(addr: Seq<char>, args: Seq<i32>) -> Seq<u8> {
    spec_osc_string(spec_ascii_bytes(addr))
        + spec_osc_string(seq![0x2cu8] + Seq::new(args.len(), |i: int| 0x69u8))
        + spec_be_i32s(args)
}

/// Encodes an OSC message with address `addr` and integer arguments `args` with
/// `rosc::encoder::encode`. The contract states what rosc's source writes for such a message:
/// the address's bytes followed by one to four null bytes to a multiple of four, then "," and an
/// "i" per argument padded in the same way, then each argument as four big-endian bytes. The
/// address must be ASCII, so that its bytes are its characters. Encoding into a `Vec<u8>` does
/// not fail.
#[verifier::external_body]
fn encode_int_message(addr: &str, args: &Vec<i32>) -> (bytes: Vec<u8>)
    requires
        spec_is_ascii(addr@),
    ensures
        bytes@ == spec_osc_int_message(addr@, args@),
{
    rosc::encoder::encode(&rosc::OscPacket::Message(rosc::OscMessage {
        addr: addr.to_string(),
        args: args.iter().map(|a| rosc::OscType::Int(*a)).collect(),
    })).unwrap()
}

/// The heartbeat, `/pitchgrid/heartbeat` with the arguments 1 and `port`, encodes as
/// `spec_heartbeat_bytes(port)`.
proof fn lemma_heartbeat_encoding(port: u16)
    ensures
        spec_is_ascii(HEARTBEAT_ADDR@),
        spec_osc_int_message(HEARTBEAT_ADDR@, seq![1i32, port as i32]) == spec_heartbeat_bytes(port),
{
    reveal_strlit("/pitchgrid/heartbeat");
    let addr = HEARTBEAT_ADDR@;
    assert(addr =~= seq!['/', 'p', 'i', 't', 'c', 'h', 'g', 'r', 'i', 'd',
        '/', 'h', 'e', 'a', 'r', 't', 'b', 'e', 'a', 't']);
    assert(spec_ascii_bytes(addr) =~= seq![0x2fu8, 0x70, 0x69, 0x74, 0x63, 0x68, 0x67, 0x72, 0x69,
        0x64, 0x2f, 0x68, 0x65, 0x61, 0x72, 0x74, 0x62, 0x65, 0x61, 0x74]);
    assert(spec_nulls(4) =~= seq![0u8, 0, 0, 0]);
    assert(spec_nulls(1) =~= seq![0u8]);
    assert(seq![0x2cu8] + Seq::new(2, |i: int| 0x69u8) =~= seq![0x2cu8, 0x69, 0x69]);
    let args = seq![1i32, port as i32];
    assert(args.drop_last() =~= seq![1i32]);
    assert(args.drop_last().drop_last() =~= Seq::<i32>::empty());
    assert(spec_be_i32(1) =~= seq![0u8, 0, 0, 1]);
    assert(spec_be_i32(port as i32) =~= seq![0u8, 0, (port / 256) as u8, (port % 256) as u8]);
    reveal_with_fuel(spec_be_i32s, 3);
    assert(args.last() == port as i32);
    assert(args.drop_last().last() == 1i32);
    assert(spec_be_i32s(args) =~= seq![0u8, 0, 0, 1, 0, 0, (port / 256) as u8, (port % 256) as u8]);
    assert(spec_osc_int_message(addr, args) =~= spec_heartbeat_bytes(port));
}

/// The state of the OSC link. Times are milliseconds on the caller's monotonic clock.
#[derive(Clone, Copy, Debug, PartialEq, Eq, Structural)]
pub struct OscState {
    pub listening_port: u16,
    pub is_running: bool,
    pub is_pitchgrid_connected: bool,
    pub last_ack_ms: Option<u64>,
    /// Whether the monitor has reported, once, that PitchGrid has not connected yet.
    pub has_reported_not_connected: bool,
}

/// The effect of a message from PitchGrid at `now` with address `addr` and arguments `args`:
/// any message acknowledges the connection; a well-formed tuning connects PitchGrid (reported
/// when it was not connected) and delivers the tuning.
pub open spec fn spec_on_message(s: OscState, addr: Seq<char>, args: Seq<OscArg>, now: u64)
    -> (OscState, Seq<OscEvent>)
{
    let s1 = OscState { last_ack_ms: Some(now), ..s };
    if spec_message_kind(addr) == OscMessageKind::Tuning && spec_is_tuning_args(args) {
        if s.is_pitchgrid_connected {
            (s1, seq![OscEvent::TuningReceived])
        } else {
            (OscState { is_pitchgrid_connected: true, ..s1 },
                seq![OscEvent::PitchGridConnectedChanged, OscEvent::TuningReceived])
        }
    } else {
        (s1, seq![])
    }
}

/// One check of the connection monitor at `now`: before any message, it reports once that
/// PitchGrid is not connected; afterwards, when no message has arrived for longer than the
/// timeout, PitchGrid is not connected, which is reported if it was.
pub open spec fn spec_monitor_step(s: OscState, now: u64) -> (OscState, Seq<OscEvent>) {
    match s.last_ack_ms {
        None => if s.has_reported_not_connected {
            (s, seq![])
        } else {
            (OscState { has_reported_not_connected: true, ..s }, seq![OscEvent::PitchGridConnectedChanged])
        },
        Some(last) => if now > last && now - last > PITCHGRID_TIMEOUT_MS {
            (OscState { is_pitchgrid_connected: false, ..s },
                if s.is_pitchgrid_connected { seq![OscEvent::PitchGridConnectedChanged] } else { seq![] })
        } else {
            (s, seq![])
        },
    }
}

/// The OSC link with PitchGrid. PitchGrid sends messages to clients that send it a heartbeat
/// at least every 2 seconds, giving the port they listen on.
pub struct Osc {
    state: OscState,
}

impl View for Osc {
    type V = OscState;

    closed spec fn view(&self) -> OscState {
        self.state
    }
}

impl Osc {
    pub fn new() -> (o: Self)
        ensures
            o@ == (OscState {
                listening_port: 0,
                is_running: false,
                is_pitchgrid_connected: false,
                last_ack_ms: None,
                has_reported_not_connected: false,
            }),
    {
        Self {
            state: OscState {
                listening_port: 0,
                is_running: false,
                is_pitchgrid_connected: false,
                last_ack_ms: None,
                has_reported_not_connected: false,
            },
        }
    }

    pub fn listening_port(&self) -> (p: u16)
        ensures
            p == self@.listening_port,
    {
        self.state.listening_port
    }

    /// The index of the listening port among the listening ports, or 0 where it is not one.
    pub fn listening_port_index(&self) -> (i: usize)
        ensures
            i == spec_listening_port_index(self@.listening_port),
    {
        let ports = Self::listening_ports();
        let n = ports.len();
        let mut i: usize = 0;
        while i < n
            invariant
                n == ports@.len(),
                ports@ == spec_listening_ports(),
                0 <= i <= n,
                forall|j: int| 0 <= j < i ==> ports@[j] != self@.listening_port,
            decreases n - i,
        {
            if ports[i] == self.state.listening_port {
                return i;
            }
            i = i + 1;
        }
        proof {
            let port = self@.listening_port;
            if port == 34560 || port == 34561 {
                assert(ports@[port - 34560] == port);
            }
            if 34563 <= port <= 34570 {
                assert(ports@[port - 34561] == port);
            }
        }
        0
    }

    /// The ports on which this application may listen.
    pub fn listening_ports() -> (ports: Vec<u16>)
        ensures
            ports@ == spec_listening_ports(),
    {
        let mut ports: Vec<u16> = Vec::new();
        let mut p: u16 = 34560;
        while p < 34571
            invariant
                34560 <= p <= 34571,
                ports@ =~= Seq::new(11, |i: int| (34560 + i) as u16).take(p - 34560).filter(
                    |q: u16| q != SEND_TO_PITCHGRID_PORT),
            decreases 34571 - p,
        {
            let ghost all = Seq::new(11, |i: int| (34560 + i) as u16);
            assert(all.take(p - 34560 + 1) =~= all.take(p - 34560).push(p));
            reveal_with_fuel(Seq::filter, 1);
            assert(all.take(p - 34560 + 1).drop_last() =~= all.take(p - 34560));
            if p != SEND_TO_PITCHGRID_PORT {
                ports.push(p);
            }
            p = p + 1;
        }
        let ghost all = Seq::new(11, |i: int| (34560 + i) as u16);
        assert(all.take(11) =~= all);
        assert(ports@ =~= spec_listening_ports()) by {
            reveal_with_fuel(Seq::filter, 12);
        }
        ports
    }

    /// The listening port used until another is chosen.
    pub fn default_listening_port() -> (p: u16)
        ensures
            p == 34561,
    {
        34561
    }

    /// Sets the listening port. Returns whether the link, if running, has been stopped and
    /// started again (its threads and socket are then to be restarted on the new port).
    pub fn set_listening_port(&mut self, listening_port: u16) -> (bounced: bool)
        ensures
            bounced == old(self)@.is_running,
            bounced ==> final(self)@ == (OscState {
                listening_port,
                is_running: true,
                is_pitchgrid_connected: false,
                last_ack_ms: None,
                has_reported_not_connected: false,
            }),
            !bounced ==> final(self)@ == (OscState { listening_port, ..old(self)@ }),
    {
        let bouncing = self.state.is_running;
        if bouncing {
            self.stop();
        }
        self.state.listening_port = listening_port;
        if bouncing {
            self.start();
        }
        bouncing
    }

    /// Starts the link: the heartbeat, the listener and the connection monitor.
    pub fn start(&mut self)
        requires
            !old(self)@.is_pitchgrid_connected,
        ensures
            final(self)@ == (OscState {
                is_running: true,
                has_reported_not_connected: false,
                ..old(self)@
            }),
    {
        self.state.is_running = true;
        self.state.has_reported_not_connected = false;
    }

    /// Stops the link.
    pub fn stop(&mut self)
        ensures
            final(self)@ == (OscState {
                is_pitchgrid_connected: false,
                last_ack_ms: None,
                is_running: false,
                ..old(self)@
            }),
    {
        self.state.is_pitchgrid_connected = false;
        self.state.last_ack_ms = None;
        self.state.is_running = false;
    }

    pub fn is_pitchgrid_connected(&self) -> (b: bool)
        ensures
            b == self@.is_pitchgrid_connected,
    {
        self.state.is_pitchgrid_connected
    }

    pub fn is_running(&self) -> (b: bool)
        ensures
            b == self@.is_running,
    {
        self.state.is_running
    }

    /// The heartbeat message to send to PitchGrid.
    pub fn heartbeat_message(&self) -> (bytes: Vec<u8>)
        ensures
            bytes@ == spec_heartbeat_bytes(self@.listening_port),
    {
        let mut args: Vec<i32> = Vec::new();
        args.push(1);
        args.push(self.state.listening_port as i32);
        proof {
            lemma_heartbeat_encoding(self.state.listening_port);
            assert(args@ =~= seq![1i32, self@.listening_port as i32]);
        }
        encode_int_message(HEARTBEAT_ADDR, &args)
    }

    /// Handles a message from PitchGrid received at `now_ms`: see `spec_on_message`.
    pub fn on_message(&mut self, addr: &str, args: &Vec<OscArg>, now_ms: u64) -> (events: Vec<OscEvent>)
        ensures
            (final(self)@, events@) == spec_on_message(old(self)@, addr@, args@, now_ms),
    {
        self.state.last_ack_ms = Some(now_ms);
        let mut events: Vec<OscEvent> = Vec::new();
        if message_kind(addr) == OscMessageKind::Tuning && is_tuning_args(args) {
            if !self.state.is_pitchgrid_connected {
                self.state.is_pitchgrid_connected = true;
                events.push(OscEvent::PitchGridConnectedChanged);
            }
            events.push(OscEvent::TuningReceived);
        }
        assert(events@ =~= spec_on_message(old(self)@, addr@, args@, now_ms).1);
        events
    }

    /// One check of the connection monitor at `now_ms`: see `spec_monitor_step`.
    pub fn monitor_step(&mut self, now_ms: u64) -> (events: Vec<OscEvent>)
        ensures
            (final(self)@, events@) == spec_monitor_step(old(self)@, now_ms),
    {
        let mut events: Vec<OscEvent> = Vec::new();
        match self.state.last_ack_ms {
            None => {
                if !self.state.has_reported_not_connected {
                    self.state.has_reported_not_connected = true;
                    events.push(OscEvent::PitchGridConnectedChanged);
                }
            },
            Some(last) => {
                if now_ms > last && now_ms - last > PITCHGRID_TIMEOUT_MS {
                    let was_connected = self.state.is_pitchgrid_connected;
                    self.state.is_pitchgrid_connected = false;
                    if was_connected {
                        events.push(OscEvent::PitchGridConnectedChanged);
                    }
                }
            },
        }
        assert(events@ =~= spec_monitor_step(old(self)@, now_ms).1);
        events
    }
}

/// The kind of a message with address `addr`.
pub fn message_kind(addr: &str) -> (k: OscMessageKind)
    ensures
        k == spec_message_kind(addr@),
{
    if str_eq(addr, HEARTBEAT_ADDR) {
        OscMessageKind::Heartbeat
    } else if str_eq(addr, TUNING_ADDR) {
        OscMessageKind::Tuning
    } else if str_eq(addr, SPECTRUM_ADDR) || str_eq(addr, CONSONANCE_ADDR) || str_eq(addr, MAPPING_ADDR)
        || str_eq(addr, NOTE_ON_ADDR) || str_eq(addr, NOTE_OFF_ADDR) {
        OscMessageKind::Ignored
    } else {
        OscMessageKind::Unknown
    }
}

/// Whether `args` are the arguments of a tuning message.
pub fn is_tuning_args(args: &Vec<OscArg>) -> (b: bool)
    ensures
        b == spec_is_tuning_args(args@),
{
    args.len() == 8 && matches!(args[0], OscArg::Int(_)) && matches!(args[1], OscArg::Float(_))
        && matches!(args[2], OscArg::Float(_)) && matches!(args[3], OscArg::Float(_))
        && matches!(args[4], OscArg::Float(_)) && matches!(args[5], OscArg::Int(_))
        && matches!(args[6], OscArg::Int(_)) && matches!(args[7], OscArg::Int(_))
}

/// The arguments of a tuning message: the mode, the root frequency, the stretch, the skew, the
/// mode offset (floats, given by their IEEE 754 bits), the number of steps and the MOS a and b.
#[derive(Clone, Copy, Debug, PartialEq, Eq, Structural)]
pub struct TuningArgs {
    pub mode: i32,
    pub root_freq_bits: u32,
    pub stretch_bits: u32,
    pub skew_bits: u32,
    pub mode_offset_bits: u32,
    pub steps: i32,
    pub mos_a: i32,
    pub mos_b: i32,
}

/// The tuning arguments in `args`, where they are those of a tuning message.
pub open spec fn spec_tuning_args(args: Seq<OscArg>) -> Option<TuningArgs> {
    if spec_is_tuning_args(args) {
        Some(TuningArgs {
            mode: args[0]->Int_0,
            root_freq_bits: args[1]->Float_0,
            stretch_bits: args[2]->Float_0,
            skew_bits: args[3]->Float_0,
            mode_offset_bits: args[4]->Float_0,
            steps: args[5]->Int_0,
            mos_a: args[6]->Int_0,
            mos_b: args[7]->Int_0,
        })
    } else {
        None
    }
}

/// Reads the tuning arguments from the arguments of a message: see `spec_tuning_args`.
pub fn tuning_args(args: &Vec<OscArg>) -> (t: Option<TuningArgs>)
    ensures
        t == spec_tuning_args(args@),
{
    if args.len() != 8 {
        return None;
    }
    match (args[0], args[1], args[2], args[3], args[4], args[5], args[6], args[7]) {
        (OscArg::Int(mode), OscArg::Float(root_freq_bits), OscArg::Float(stretch_bits),
            OscArg::Float(skew_bits), OscArg::Float(mode_offset_bits), OscArg::Int(steps),
            OscArg::Int(mos_a), OscArg::Int(mos_b)) => Some(TuningArgs {
            mode, root_freq_bits, stretch_bits, skew_bits, mode_offset_bits, steps, mos_a, mos_b,
        }),
        _ => None,
    }
}

/// What `rosc::decoder::decode_udp` makes of the datagram `bytes`, as far as this application
/// reads it: a message's address and arguments; nothing for a bundle or for bytes that do not
/// decode.
pub uninterp spec fn spec_decode_message(bytes: Seq<u8>) -> Option<(Seq<char>, Seq<OscArg>)>;

/// Decodes a datagram with `rosc::decoder::decode_udp`, keeping a message's address and its
/// arguments (an integer as such, a float as its bits, anything else as `Other`) and dropping a
/// bundle or an error. The contract names the result; it claims nothing of rosc's decoding.
#[verifier::external_body]
pub(crate) fn decode_udp_message(bytes: &[u8]) -> (m: Option<(String, Vec<OscArg>)>)
    ensures
        match m {
            Some((addr, args)) => spec_decode_message(bytes@) == Some((addr@, args@)),
            None => spec_decode_message(bytes@) is None,
        },
{
    match rosc::decoder::decode_udp(bytes) {
        Ok((_, rosc::OscPacket::Message(msg))) => Some((msg.addr, msg.args.into_iter().map(|arg| match arg {
            rosc::OscType::Int(i) => OscArg::Int(i),
            rosc::OscType::Float(x) => OscArg::Float(x.to_bits()),
            _ => OscArg::Other,
        }).collect())),
        _ => None,
    }
}

/// The listening port to use for the port saved in the settings: that port where it is one of
/// the listening ports, and otherwise the default.
pub fn listening_port_from_setting(setting: u16) -> (port: u16)
    ensures
        port == (if spec_listening_ports().contains(setting) { setting } else { 34561 }),
{
    let ports = Osc::listening_ports();
    let n = ports.len();
    let mut i: usize = 0;
    while i < n
        invariant
            n == ports@.len(),
            ports@ == spec_listening_ports(),
            0 <= i <= n,
            forall|j: int| 0 <= j < i ==> ports@[j] != setting,
        decreases n - i,
    {
        if ports[i] == setting {
            return setting;
        }
        i = i + 1;
    }
    Osc::default_listening_port()
}

/// The listening port chosen from any setting is a listening port; it is never the port on which
/// PitchGrid itself listens; and the index of a listening port leads back to it.
pub proof fn law_listening_port_choice(setting: u16, index: int)
    requires
        0 <= index < spec_listening_ports().len(),
    ensures
        spec_listening_ports().contains(
            if spec_listening_ports().contains(setting) { setting } else { 34561u16 }),
        !spec_listening_ports().contains(SEND_TO_PITCHGRID_PORT),
        spec_listening_port_index(spec_listening_ports()[index]) == index,
        spec_listening_ports().len() == 10,
{
    let ports = spec_listening_ports();
    assert(ports[1] == 34561);
    if ports.contains(SEND_TO_PITCHGRID_PORT) {
        let k = choose|k: int| 0 <= k < ports.len() && ports[k] == SEND_TO_PITCHGRID_PORT;
        assert(false);
    }
}

} // verus!
