//! Verified core of a bridge that tunes a Haken Continuum fingerboard from PitchGrid tuning
//! parameters: the MIDI wire formats, the Continuum protocol interpreter, the tuning-update
//! scheduler, and the decisions that surround them.

pub mod global;
pub mod error_notifier;
pub mod midi_codec;
pub mod midi_message_batch;
pub mod continuum_midi_batch;
pub mod midi_sender;
pub mod i_continuum_protocol;
pub mod i_midi_manager;
pub mod continuum_protocol;
pub mod midi_command;
pub mod tuner;
pub mod properties;
pub mod text;
pub mod osc;
pub mod settings;
pub mod midi_ports;
pub mod midi_manager;
pub mod version_checker;
pub mod release_info;
pub mod device_strategy;
pub mod presentation;
pub mod tuning_update_watchdog;
pub mod presenter;
pub mod presenter_properties;
pub mod system_paths;
pub mod tuning_params;
