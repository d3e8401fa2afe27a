//! Application settings. Reading and writing the settings file is the application's.

use vstd::prelude::*;

verus! {

/// The abstract settings.
pub struct SettingsModel {
    pub main_window_x: i32,
    pub main_window_y: i32,
    pub midi_input_device: Seq<char>,
    pub midi_output_device: Seq<char>,
    pub osc_listening_port: u16,
    pub pitch_table: u8,
    pub override_rounding_initial: bool,
    pub override_rounding_rate: bool,
    pub rounding_rate: u8,
}

/// The interface for application settings.
pub trait ISettings {
    fn main_window_x(&self) -> i32;
    fn set_main_window_x(&mut self, value: i32);
    fn main_window_y(&self) -> i32;
    fn set_main_window_y(&mut self, value: i32);
    fn midi_input_device(&self) -> &str;
    fn set_midi_input_device(&mut self, value: &str);
    fn midi_output_device(&self) -> &str;
    fn set_midi_output_device(&mut self, value: &str);
    fn osc_listening_port(&self) -> u16;
    fn set_osc_listening_port(&mut self, value: u16);
    fn pitch_table(&self) -> u8;
    fn set_pitch_table(&mut self, value: u8);
    fn override_rounding_initial(&self) -> bool;
    fn set_override_rounding_initial(&mut self, value: bool);
    fn override_rounding_rate(&self) -> bool;
    fn set_override_rounding_rate(&mut self, value: bool);
    fn rounding_rate(&self) -> u8;
    fn set_rounding_rate(&mut self, value: u8);
}

/// Application settings, saved to and restored from a file.
pub struct Settings {
    main_window_x: i32,
    main_window_y: i32,
    midi_input_device: String,
    midi_output_device: String,
    osc_listening_port: u16,
    pitch_table: u8,
    override_rounding_initial: bool,
    override_rounding_rate: bool,
    rounding_rate: u8,
}

impl View for Settings {
    type V = SettingsModel;

    closed spec fn view(&self) -> SettingsModel {
        SettingsModel {
            main_window_x: self.main_window_x,
            main_window_y: self.main_window_y,
            midi_input_device: self.midi_input_device@,
            midi_output_device: self.midi_output_device@,
            osc_listening_port: self.osc_listening_port,
            pitch_table: self.pitch_table,
            override_rounding_initial: self.override_rounding_initial,
            override_rounding_rate: self.override_rounding_rate,
            rounding_rate: self.rounding_rate,
        }
    }
}

impl Settings {
    /// The settings before any have been saved.
    pub open spec fn new_spec() -> SettingsModel {
        SettingsModel {
            main_window_x: 0,
            main_window_y: 0,
            midi_input_device: Seq::empty(),
            midi_output_device: Seq::empty(),
            osc_listening_port: 0,
            pitch_table: 0,
            override_rounding_initial: true,
            override_rounding_rate: true,
            rounding_rate: 127,
        }
    }

    /// The settings before any have been saved: no devices, rounding overrides on, at the
    /// highest rounding rate.
    pub fn new() -> (s: Self)
        ensures
            s@ == (SettingsModel {
                main_window_x: 0,
                main_window_y: 0,
                midi_input_device: Seq::empty(),
                midi_output_device: Seq::empty(),
                osc_listening_port: 0,
                pitch_table: 0,
                override_rounding_initial: true,
                override_rounding_rate: true,
                rounding_rate: 127,
            }),
    {
        Self {
            main_window_x: 0,
            main_window_y: 0,
            midi_input_device: String::new(),
            midi_output_device: String::new(),
            osc_listening_port: 0,
            pitch_table: 0,
            override_rounding_initial: true,
            override_rounding_rate: true,
            rounding_rate: 127,
        }
    }

    /// Takes every setting from `restored`, the settings read from the settings file.
    pub fn restore_from(&mut self, restored: Settings)
        ensures
            final(self)@ == restored@,
    {
        *self = restored;
    }
}

impl ISettings for Settings {
    fn main_window_x(&self) -> (v: i32)
        ensures
            v == self@.main_window_x,
    {
        self.main_window_x
    }

    fn set_main_window_x(&mut self, value: i32)
        ensures
            final(self)@ == (SettingsModel { main_window_x: value, ..old(self)@ }),
    {
        self.main_window_x = value;
    }

    fn main_window_y(&self) -> (v: i32)
        ensures
            v == self@.main_window_y,
    {
        self.main_window_y
    }

    fn set_main_window_y(&mut self, value: i32)
        ensures
            final(self)@ == (SettingsModel { main_window_y: value, ..old(self)@ }),
    {
        self.main_window_y = value;
    }

    fn midi_input_device(&self) -> (v: &str)
        ensures
            v@ == self@.midi_input_device,
    {
        self.midi_input_device.as_str()
    }

    fn set_midi_input_device(&mut self, value: &str)
        ensures
            final(self)@ == (SettingsModel { midi_input_device: value@, ..old(self)@ }),
    {
        self.midi_input_device = String::from_str(value);
    }

    fn midi_output_device(&self) -> (v: &str)
        ensures
            v@ == self@.midi_output_device,
    {
        self.midi_output_device.as_str()
    }

    fn set_midi_output_device(&mut self, value: &str)
        ensures
            final(self)@ == (SettingsModel { midi_output_device: value@, ..old(self)@ }),
    {
        self.midi_output_device = String::from_str(value);
    }

    fn osc_listening_port(&self) -> (v: u16)
        ensures
            v == self@.osc_listening_port,
    {
        self.osc_listening_port
    }

    fn set_osc_listening_port(&mut self, value: u16)
        ensures
            final(self)@ == (SettingsModel { osc_listening_port: value, ..old(self)@ }),
    {
        self.osc_listening_port = value;
    }

    fn pitch_table(&self) -> (v: u8)
        ensures
            v == self@.pitch_table,
    {
        self.pitch_table
    }

    fn set_pitch_table(&mut self, value: u8)
        ensures
            final(self)@ == (SettingsModel { pitch_table: value, ..old(self)@ }),
    {
        self.pitch_table = value;
    }

    fn override_rounding_initial(&self) -> (v: bool)
        ensures
            v == self@.override_rounding_initial,
    {
        self.override_rounding_initial
    }

    fn set_override_rounding_initial(&mut self, value: bool)
        ensures
            final(self)@ == (SettingsModel { override_rounding_initial: value, ..old(self)@ }),
    {
        self.override_rounding_initial = value;
    }

    fn override_rounding_rate(&self) -> (v: bool)
        ensures
            v == self@.override_rounding_rate,
    {
        self.override_rounding_rate
    }

    fn set_override_rounding_rate(&mut self, value: bool)
        ensures
            final(self)@ == (SettingsModel { override_rounding_rate: value, ..old(self)@ }),
    {
        self.override_rounding_rate = value;
    }

    fn rounding_rate(&self) -> (v: u8)
        ensures
            v == self@.rounding_rate,
    {
        self.rounding_rate
    }

    fn set_rounding_rate(&mut self, value: u8)
        ensures
            final(self)@ == (SettingsModel { rounding_rate: value, ..old(self)@ }),
    {
        self.rounding_rate = value;
    }
}

} // verus!
