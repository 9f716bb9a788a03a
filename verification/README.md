# Midi to Qwerty

Plays a computer keyboard from a MIDI piano. What can be decided without the
machine is a library verified with Verus; what touches MIDI ports, the disk, the
window and the virtual keyboard is ordinary Rust around it.

- `src/midi_message.rs`: the event in a MIDI message, read by the `midi-event` crate.
- `src/midi_update.rs`: what is done about each message, and how the connection is
  renewed when settings change.
- `src/keys.rs`: key events, and the release of all keys.
- `src/config.rs`, `src/settings.rs`: the saved configuration, the settings in
  force, and the input ports.
- `src/panel.rs`: what each control of the settings panel does.
- `src/text.rs`: text out of bytes.
- `src/laws.rs`: what holds of all this together.
- `app/`: the program. The key table, the virtual keyboard and the output methods
  are supplied to it through the traits in `app/platform.rs`.
