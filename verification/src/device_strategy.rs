//! Strategies for what depends on whether a MIDI device is an input or an output: the setting
//! that remembers it and the messages shown about it. (What the window shows is the view's.)

use vstd::prelude::*;
use crate::global::PortType;
use crate::settings::{ISettings, Settings, SettingsModel};

verus! {

/// What depends on whether a MIDI device is an input or an output.
pub trait DeviceStrategy {
    fn device_type(&self) -> PortType;
    fn device_setting<'a>(&self, settings: &'a Settings) -> &'a str;
    fn set_device_setting(&self, settings: &mut Settings, device_name: &str);
    fn msg_cannot_connect(&self, device_name: &str) -> String;
    fn msg_connect(&self) -> &'static str;
    fn msg_connected(&self, device_name: &str) -> String;
    fn msg_not_selected(&self) -> &'static str;
    fn msg_refreshed_reconnect(&self) -> &'static str;
}

/// The message shown when the device `name` of type `t` cannot be connected.
pub open spec fn spec_msg_cannot_connect(t: PortType, name: Seq<char>) -> Seq<char> {
    match t {
        PortType::Input => "Cannot connect MIDI input device "@ + name + ". The device may be in use."@,
        PortType::Output => "Cannot connect MIDI output device "@ + name + ". The device may be in use."@,
    }
}

/// The message shown when the device `name` of type `t` has been connected.
pub open spec fn spec_msg_connected(t: PortType, name: Seq<char>) -> Seq<char> {
    match t {
        PortType::Input => "Connected MIDI input device "@ + name,
        PortType::Output => "Connected MIDI output device "@ + name,
    }
}

/// The request to connect a device of type `t`.
pub open spec fn spec_msg_connect(t: PortType) -> Seq<char> {
    match t {
        PortType::Input => "Connect MIDI input device"@,
        PortType::Output => "Connect MIDI output device"@,
    }
}

/// The message shown once the devices of type `t` have been listed again.
pub open spec fn spec_msg_refreshed_reconnect(t: PortType) -> Seq<char> {
    match t {
        PortType::Input => "Refreshed MIDI input devices. You must (re)connect."@,
        PortType::Output => "Refreshed MIDI output devices. You must (re)connect."@,
    }
}

/// The setting that remembers the device of type `t`.
pub open spec fn spec_device_setting(t: PortType, s: SettingsModel) -> Seq<char> {
    match t {
        PortType::Input => s.midi_input_device,
        PortType::Output => s.midi_output_device,
    }
}

/// The settings once the device of type `t` is remembered as `name`.
pub open spec fn spec_with_device_setting(t: PortType, s: SettingsModel, name: Seq<char>) -> SettingsModel {
    match t {
        PortType::Input => SettingsModel { midi_input_device: name, ..s },
        PortType::Output => SettingsModel { midi_output_device: name, ..s },
    }
}

/// The strategy for the input device.
#[derive(Clone, Copy)]
pub struct InputStrategy {}

impl InputStrategy {
    pub fn new() -> Self {
        Self {}
    }
}

impl DeviceStrategy for InputStrategy {
    fn device_type(&self) -> (t: PortType)
        ensures
            t == PortType::Input,
    {
        PortType::Input
    }

    fn device_setting<'a>(&self, settings: &'a Settings) -> (name: &'a str)
        ensures
            name@ == settings@.midi_input_device,
    {
        settings.midi_input_device()
    }

    fn set_device_setting(&self, settings: &mut Settings, device_name: &str)
        ensures
            final(settings)@ == (SettingsModel { midi_input_device: device_name@, ..old(settings)@ }),
    {
        settings.set_midi_input_device(device_name);
    }

    fn msg_cannot_connect(&self, device_name: &str) -> (m: String)
        ensures
            m@ == spec_msg_cannot_connect(PortType::Input, device_name@),
    {
        let m = String::from_str("Cannot connect MIDI input device ");
        let m = m.concat(device_name);
        m.concat(". The device may be in use.")
    }

    fn msg_connect(&self) -> (m: &'static str)
        ensures
            m@ == "Connect MIDI input device"@,
    {
        "Connect MIDI input device"
    }

    fn msg_connected(&self, device_name: &str) -> (m: String)
        ensures
            m@ == spec_msg_connected(PortType::Input, device_name@),
    {
        String::from_str("Connected MIDI input device ").concat(device_name)
    }

    fn msg_not_selected(&self) -> (m: &'static str)
        ensures
            m@ == "No MIDI input device selected."@,
    {
        "No MIDI input device selected."
    }

    fn msg_refreshed_reconnect(&self) -> (m: &'static str)
        ensures
            m@ == "Refreshed MIDI input devices. You must (re)connect."@,
    {
        "Refreshed MIDI input devices. You must (re)connect."
    }
}

/// The strategy for the output device.
#[derive(Clone, Copy)]
pub struct OutputStrategy {}

impl OutputStrategy {
    pub fn new() -> Self {
        Self {}
    }
}

impl DeviceStrategy for OutputStrategy {
    fn device_type(&self) -> (t: PortType)
        ensures
            t == PortType::Output,
    {
        PortType::Output
    }

    fn device_setting<'a>(&self, settings: &'a Settings) -> (name: &'a str)
        ensures
            name@ == settings@.midi_output_device,
    {
        settings.midi_output_device()
    }

    fn set_device_setting(&self, settings: &mut Settings, device_name: &str)
        ensures
            final(settings)@ == (SettingsModel { midi_output_device: device_name@, ..old(settings)@ }),
    {
        settings.set_midi_output_device(device_name);
    }

    fn msg_cannot_connect(&self, device_name: &str) -> (m: String)
        ensures
            m@ == spec_msg_cannot_connect(PortType::Output, device_name@),
    {
        let m = String::from_str("Cannot connect MIDI output device ");
        let m = m.concat(device_name);
        m.concat(". The device may be in use.")
    }

    fn msg_connect(&self) -> (m: &'static str)
        ensures
            m@ == "Connect MIDI output device"@,
    {
        "Connect MIDI output device"
    }

    fn msg_connected(&self, device_name: &str) -> (m: String)
        ensures
            m@ == spec_msg_connected(PortType::Output, device_name@),
    {
        String::from_str("Connected MIDI output device ").concat(device_name)
    }

    fn msg_not_selected(&self) -> (m: &'static str)
        ensures
            m@ == "No MIDI output device selected."@,
    {
        "No MIDI output device selected."
    }

    fn msg_refreshed_reconnect(&self) -> (m: &'static str)
        ensures
            m@ == "Refreshed MIDI output devices. You must (re)connect."@,
    {
        "Refreshed MIDI output devices. You must (re)connect."
    }
}

} // verus!
