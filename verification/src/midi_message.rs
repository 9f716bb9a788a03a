//! MIDI messages as they arrive from an input port, and the events in them.

use midi_event::MidiEventType::{
    ChannelPressure, Controller, NoteOff, NoteOn, PitchBend, PolyphonicPressure, ProgramChange,
};
use midi_event::Parse;
use vstd::prelude::*;

verus! {

/// What a channel message says, its note given by its number.
#[derive(Debug, Clone, Copy, PartialEq, Eq, Structural)]
pub enum MidiEventType {
    NoteOff(u8, u8),
    NoteOn(u8, u8),
    PolyphonicPressure(u8, u8),
    Controller(u8, u8),
    ProgramChange(u8),
    ChannelPressure(u8),
    PitchBend(u8, u8),
}

/// A channel message together with the channel that it is for.
#[derive(Debug, Clone, Copy, PartialEq, Eq, Structural)]
pub struct MidiEvent {
    pub channel: u8,
    pub event: MidiEventType,
}

/// The event in a message. What the system exclusive and the escape messages
/// carry is of no use here, so it is not kept.
#[derive(Debug, Clone, Copy, PartialEq, Eq, Structural)]
pub enum Event {
    Midi(MidiEvent),
    SysEx,
    Escape,
}

/// The lower seven bits, which are all that a data byte carries.
pub open spec fn data(byte: u8) -> u8 {
    byte & 0x7f
}

/// The channel message whose status has the upper half `status` and whose
/// data bytes follow in `message`. None where the status is of no channel
/// message or where data bytes are missing.
pub open spec fn channel_event(status: u8, message: Seq<u8>) -> Option<MidiEventType> {
    if status == 0xc0 && message.len() >= 2 {
        Some(MidiEventType::ProgramChange(data(message[1])))
    } else if status == 0xd0 && message.len() >= 2 {
        Some(MidiEventType::ChannelPressure(data(message[1])))
    } else if message.len() < 3 {
        None
    } else if status == 0x80 {
        Some(MidiEventType::NoteOff(data(message[1]), data(message[2])))
    } else if status == 0x90 {
        Some(MidiEventType::NoteOn(data(message[1]), data(message[2])))
    } else if status == 0xa0 {
        Some(MidiEventType::PolyphonicPressure(data(message[1]), data(message[2])))
    } else if status == 0xb0 {
        Some(MidiEventType::Controller(data(message[1]), data(message[2])))
    } else if status == 0xe0 {
        Some(MidiEventType::PitchBend(data(message[1]), data(message[2])))
    } else {
        None
    }
}

/// The event that `message` starts with, if it starts with one. A message
/// whose first byte is 0xf0 is system exclusive, whatever follows.
pub open spec fn event_of(message: Seq<u8>) -> Option<Event> {
    if message.len() == 0 {
        None
    } else if message[0] == 0xf0 {
        Some(Event::SysEx)
    } else {
        match channel_event(message[0] & 0xf0, message) {
            Some(event) => Some(Event::Midi(MidiEvent { channel: message[0] & 0x0f, event })),
            None => None,
        }
    }
}

/// The event in `message`, as `midi_event::Event::parse` finds it.
///
/// Not proved: that the crate reads a channel message by its status byte and
/// the lower seven bits of the one or two bytes after it, ignores whatever
/// follows them, takes every message with first byte 0xf0 for a system
/// exclusive one, and finds no event in any other message, in one that is cut
/// short, and in an empty one. The payload of a system exclusive message, which
/// the crate also hands out, is dropped here.
#[verifier::external_body]
pub(crate) fn parse(message: &[u8]) -> (found: Option<Event>)
    ensures
        found == event_of(message@),
{
    Some(match midi_event::Event::parse(message)? {
        midi_event::Event::Midi(midi) => Event::Midi(MidiEvent { channel: midi.channel, event: match midi.event {
            NoteOff(note, v) => MidiEventType::NoteOff(note.into(), v),
            NoteOn(note, v) => MidiEventType::NoteOn(note.into(), v),
            PolyphonicPressure(note, v) => MidiEventType::PolyphonicPressure(note.into(), v),
            Controller(c, v) => MidiEventType::Controller(c, v),
            ProgramChange(v) => MidiEventType::ProgramChange(v),
            ChannelPressure(v) => MidiEventType::ChannelPressure(v),
            PitchBend(l, m) => MidiEventType::PitchBend(l, m),
        } }),
        midi_event::Event::SysEx(_) => Event::SysEx,
        midi_event::Event::Escape(_) => Event::Escape,
    })
}

} // verus!
