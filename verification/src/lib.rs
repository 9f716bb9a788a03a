//! Turning what a MIDI piano sends into presses and releases of a computer
//! keyboard: which request each MIDI message makes, how the connection is
//! renewed when settings change, which port is listened to, and what the
//! settings panel does to the settings and to the saved configuration.

pub mod config;
pub mod keys;
pub mod laws;
pub mod message_laws;
pub mod midi_message;
pub mod midi_update;
pub mod panel;
pub mod panel_laws;
pub mod settings;
pub mod start_laws;
pub mod text;
