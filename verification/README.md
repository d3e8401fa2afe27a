# PitchGrid-Continuum Bridge

A bridge that tunes a Haken Continuum fingerboard (and other EaganMatrix instruments) from the
tuning parameters that [PitchGrid](https://pitchgrid.io/) sends over OSC. Each tuning is turned
into a 128-key pitch table that is uploaded to one of the instrument's custom tuning grids
(80 to 87) and loaded into the current preset, with the preset's rounding optionally overridden.

## Layout

- `src/` is the verified library, written in Verus:
  - `presenter.rs`: the coordinator. Each handler takes an event (a protocol event, a MIDI or
    OSC message, a player's choice, a timer) and returns the actions for the application and
    the protocol events it raised. `presenter_properties.rs` states what holds over sequences
    of events.
  - `tuner.rs`: the tuning updates sent to the instrument, and their scheduling (at most one
    update in flight; the latest waiting tuning is sent on confirmation).
  - `continuum_protocol.rs`: the interpretation of the MIDI the instrument sends (the initial data
    download, preset selection, tuning update confirmation).
  - `osc.rs`, `midi_manager.rs`, `midi_ports.rs`: the OSC link with PitchGrid, the MIDI devices and
    the connection monitors.
  - `midi_codec.rs`, `midi_message_batch.rs`, `continuum_midi_batch.rs`, `midi_command.rs`,
    `midi_sender.rs`: the MIDI wire format, written and read through `midly`.
  - `settings.rs`, `presentation.rs`, `device_strategy.rs`, `version_checker.rs`,
    `release_info.rs`, `system_paths.rs`, `tuning_update_watchdog.rs`, `text.rs`: the rest.
  - `properties.rs`: properties of the tuner and the protocol together.
- `tests/`: tests of the library.
- `app/`: the program around the library: MIDI through `midir`, OSC over UDP, the settings file,
  the release lookup, the console view, and the floating-point pitch calculation (with the
  scalatrix C++ library).
