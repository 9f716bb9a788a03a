//! What the functions that deal with messages, keys and the connection return,
//! said of their results and the bytes, names and events that they are given.

use vstd::prelude::*;

use crate::keys::{release_all, Key, KeyEvent, KeyEvents};
use crate::midi_message::{Event, MidiEvent, MidiEventType};
use crate::midi_update::{
    handle_message, keys_to_write, link_actions, react, LinkAction, LinkEvent, Reaction, Request,
};

verus! {

/// The upper half of a byte tells which of sixteen ranges it lies in, and its
/// lower seven bits are what is left of it modulo 128.
proof fn lemma_byte(byte: u8)
    by (bit_vector)
    ensures
        byte & 0x7f == byte % 128,
        byte & 0xf0 == 0x80 <==> 0x80 <= byte <= 0x8f,
        byte & 0xf0 == 0x90 <==> 0x90 <= byte <= 0x9f,
        byte & 0xf0 == 0xa0 <==> 0xa0 <= byte <= 0xaf,
        byte & 0xf0 == 0xb0 <==> 0xb0 <= byte <= 0xbf,
        byte & 0xf0 == 0xc0 <==> 0xc0 <= byte <= 0xcf,
        byte & 0xf0 == 0xd0 <==> 0xd0 <= byte <= 0xdf,
        byte & 0xf0 == 0xe0 <==> 0xe0 <= byte <= 0xef,
{
}

/// The bytes of a message that are looked at.
proof fn lemma_bytes(message: Seq<u8>)
    ensures
        forall|i: int|
            0 <= i < message.len() ==> {
                &&& #[trigger] message[i] & 0x7f == message[i] % 128
                &&& message[i] & 0xf0 == 0x80 <==> 0x80 <= message[i] <= 0x8f
                &&& message[i] & 0xf0 == 0x90 <==> 0x90 <= message[i] <= 0x9f
                &&& message[i] & 0xf0 == 0xa0 <==> 0xa0 <= message[i] <= 0xaf
                &&& message[i] & 0xf0 == 0xb0 <==> 0xb0 <= message[i] <= 0xbf
                &&& message[i] & 0xf0 == 0xc0 <==> 0xc0 <= message[i] <= 0xcf
                &&& message[i] & 0xf0 == 0xd0 <==> 0xd0 <= message[i] <= 0xdf
                &&& message[i] & 0xf0 == 0xe0 <==> 0xe0 <= message[i] <= 0xef
            },
{
    assert forall|i: int| 0 <= i < message.len() implies {
        &&& #[trigger] message[i] & 0x7f == message[i] % 128
        &&& message[i] & 0xf0 == 0x80 <==> 0x80 <= message[i] <= 0x8f
        &&& message[i] & 0xf0 == 0x90 <==> 0x90 <= message[i] <= 0x9f
        &&& message[i] & 0xf0 == 0xa0 <==> 0xa0 <= message[i] <= 0xaf
        &&& message[i] & 0xf0 == 0xb0 <==> 0xb0 <= message[i] <= 0xbf
        &&& message[i] & 0xf0 == 0xc0 <==> 0xc0 <= message[i] <= 0xcf
        &&& message[i] & 0xf0 == 0xd0 <==> 0xd0 <= message[i] <= 0xdf
        &&& message[i] & 0xf0 == 0xe0 <==> 0xe0 <= message[i] <= 0xef
    } by {
        lemma_byte(message[i]);
    }
}

/// A message is muted just where output is off. Where it is on, there is no
/// reaction just to a message that is empty, starts with a byte below 0x80 or
/// above 0xf0, or is too short for its first byte.
pub proof fn law_muted_or_unreadable(output: bool, message: &[u8], reaction: Option<Reaction>)
    requires
        call_ensures(handle_message, (output, message), reaction),
    ensures
        reaction == Some(Reaction::Muted) <==> !output,
        reaction is None <==> output && {
            ||| message@.len() == 0
            ||| message@[0] < 0x80
            ||| message@[0] > 0xf0
            ||| 0x80 <= message@[0] <= 0xbf && message@.len() < 3
            ||| 0xc0 <= message@[0] <= 0xdf && message@.len() < 2
            ||| 0xe0 <= message@[0] <= 0xef && message@.len() < 3
        },
{
    lemma_bytes(message@);
}

/// A note is pressed just on a message of three bytes or more that starts with
/// 0x90 to 0x9f and has a velocity above 0: the note and the velocity of it.
pub proof fn law_press_note(
    output: bool,
    message: &[u8],
    reaction: Option<Reaction>,
    note: u8,
    velocity: u8,
)
    requires
        call_ensures(handle_message, (output, message), reaction),
    ensures
        reaction == Some(Reaction::Ask(Request::PressNote { note, velocity })) <==> {
            &&& output
            &&& message@.len() >= 3
            &&& 0x90 <= message@[0] <= 0x9f
            &&& note == message@[1] % 128
            &&& velocity == message@[2] % 128
            &&& velocity > 0
        },
{
    lemma_bytes(message@);
}

/// A note is released just on a message of three bytes or more that starts with
/// 0x80 to 0x8f, or that starts with 0x90 to 0x9f and has velocity 0.
pub proof fn law_release_note(output: bool, message: &[u8], reaction: Option<Reaction>, note: u8)
    requires
        call_ensures(handle_message, (output, message), reaction),
    ensures
        reaction == Some(Reaction::Ask(Request::ReleaseNote { note })) <==> {
            &&& output
            &&& message@.len() >= 3
            &&& note == message@[1] % 128
            &&& 0x80 <= message@[0] <= 0x8f || (0x90 <= message@[0] <= 0x9f && message@[2] % 128
                == 0)
        },
{
    lemma_bytes(message@);
}

/// The sustain pedal is moved just by controller 64, the sostenuto pedal just
/// by controller 66, and every other controller is unknown.
pub proof fn law_controllers(
    output: bool,
    message: &[u8],
    reaction: Option<Reaction>,
    control: u8,
    value: u8,
)
    requires
        call_ensures(handle_message, (output, message), reaction),
    ensures
        reaction == Some(Reaction::Ask(Request::ProcessSustain { value })) <==> {
            &&& output
            &&& message@.len() >= 3
            &&& 0xb0 <= message@[0] <= 0xbf
            &&& message@[1] % 128 == 64
            &&& value == message@[2] % 128
        },
        reaction == Some(Reaction::Ask(Request::ProcessSostenuto { value })) <==> {
            &&& output
            &&& message@.len() >= 3
            &&& 0xb0 <= message@[0] <= 0xbf
            &&& message@[1] % 128 == 66
            &&& value == message@[2] % 128
        },
        reaction == Some(Reaction::UnknownControl(control)) <==> {
            &&& output
            &&& message@.len() >= 3
            &&& 0xb0 <= message@[0] <= 0xbf
            &&& control == message@[1] % 128
            &&& control != 64
            &&& control != 66
        },
{
    lemma_bytes(message@);
}

/// Aftertouch, program changes and pitch bends are reported as they are, and
/// nothing else is reported as a message of an unsupported type.
pub proof fn law_unsupported_types(
    output: bool,
    message: &[u8],
    reaction: Option<Reaction>,
    event: MidiEventType,
)
    requires
        call_ensures(handle_message, (output, message), reaction),
    ensures
        reaction == Some(Reaction::UnsupportedType(event)) <==> output && (match event {
            MidiEventType::PolyphonicPressure(note, pressure) => {
                &&& message@.len() >= 3
                &&& 0xa0 <= message@[0] <= 0xaf
                &&& note == message@[1] % 128
                &&& pressure == message@[2] % 128
            },
            MidiEventType::ProgramChange(program) => {
                &&& message@.len() >= 2
                &&& 0xc0 <= message@[0] <= 0xcf
                &&& program == message@[1] % 128
            },
            MidiEventType::ChannelPressure(pressure) => {
                &&& message@.len() >= 2
                &&& 0xd0 <= message@[0] <= 0xdf
                &&& pressure == message@[1] % 128
            },
            MidiEventType::PitchBend(low, high) => {
                &&& message@.len() >= 3
                &&& 0xe0 <= message@[0] <= 0xef
                &&& low == message@[1] % 128
                &&& high == message@[2] % 128
            },
            _ => false,
        }),
{
    lemma_bytes(message@);
}

/// Just the messages that start with 0xf0 are no channel messages.
pub proof fn law_system_exclusive(output: bool, message: &[u8], reaction: Option<Reaction>)
    requires
        call_ensures(handle_message, (output, message), reaction),
    ensures
        reaction == Some(Reaction::UnsupportedEvent) <==> output && message@.len() > 0 && message@[0]
            == 0xf0,
{
    lemma_bytes(message@);
}

/// What is done about a note: it is pressed just where it starts with a velocity
/// above 0, and released just where it ends or starts with velocity 0.
pub proof fn law_react_to_notes(event: Event, reaction: Reaction, channel: u8, note: u8, velocity: u8)
    requires
        call_ensures(react, (event,), reaction),
    ensures
        reaction matches Reaction::Ask(Request::PressNote { note, velocity }) ==> velocity > 0 && (
        event matches Event::Midi(midi) && midi.event == MidiEventType::NoteOn(note, velocity)),
        reaction matches Reaction::Ask(Request::ReleaseNote { note }) ==> (event matches Event::Midi(
            midi,
        ) && (midi.event == MidiEventType::NoteOn(note, 0) || (midi.event matches MidiEventType::NoteOff(
            ended,
            _,
        ) && ended == note))),
        event == Event::Midi(MidiEvent { channel, event: MidiEventType::NoteOn(note, velocity) })
            ==> reaction == (if velocity > 0 {
            Reaction::Ask(Request::PressNote { note, velocity })
        } else {
            Reaction::Ask(Request::ReleaseNote { note })
        }),
        event == Event::Midi(MidiEvent { channel, event: MidiEventType::NoteOff(note, velocity) })
            ==> reaction == Reaction::Ask(Request::ReleaseNote { note }),
{
}

/// What is done about everything but notes: two controllers are pedals, the
/// others are unknown, and the rest is unsupported.
pub proof fn law_react_to_others(event: Event, reaction: Reaction, channel: u8, a: u8, b: u8)
    requires
        call_ensures(react, (event,), reaction),
    ensures
        reaction matches Reaction::Ask(Request::ProcessSustain { value }) ==> (event matches Event::Midi(
            midi,
        ) && midi.event == MidiEventType::Controller(64, value)),
        reaction matches Reaction::Ask(Request::ProcessSostenuto { value }) ==> (event matches Event::Midi(
            midi,
        ) && midi.event == MidiEventType::Controller(66, value)),
        event == Event::Midi(MidiEvent { channel, event: MidiEventType::Controller(64, b) })
            ==> reaction == Reaction::Ask(Request::ProcessSustain { value: b }),
        event == Event::Midi(MidiEvent { channel, event: MidiEventType::Controller(66, b) })
            ==> reaction == Reaction::Ask(Request::ProcessSostenuto { value: b }),
        event == Event::Midi(MidiEvent { channel, event: MidiEventType::Controller(a, b) }) && a != 64
            && a != 66 ==> reaction == Reaction::UnknownControl(a),
        event matches Event::Midi(midi) ==> (midi.event is PolyphonicPressure
            || midi.event is ProgramChange || midi.event is ChannelPressure || midi.event is PitchBend)
            ==> reaction == Reaction::UnsupportedType(midi.event),
        event is SysEx || event is Escape ==> reaction == Reaction::UnsupportedEvent,
{
}

/// What is written is the answer of the output method where it was asked, and
/// else no key at all. The keyboard is not even written to where output is off
/// and where the message is no channel message.
pub proof fn law_written_keys(reaction: Reaction, answer: KeyEvents, written: Option<KeyEvents>)
    requires
        call_ensures(keys_to_write, (reaction, answer), written),
    ensures
        reaction is Ask ==> written == Some(answer),
        !(reaction is Ask) ==> (written matches Some(keys) ==> keys@.len() == 0),
        written is None <==> reaction == Reaction::Muted || reaction == Reaction::UnsupportedEvent,
{
}

/// A key keeps the name that it is made with.
pub proof fn law_key_name(name: &str, key: Key)
    requires
        call_ensures(Key::new, (name,), key),
    ensures
        key.name@ == name@,
{
}

/// Releasing all keys releases the key of every name, once for each time that the
/// name stands in the list and in the order of the list, and presses none.
pub proof fn law_every_key_is_released(names: &[&str], events: KeyEvents)
    requires
        call_ensures(release_all, (names,), events),
    ensures
        events@.len() == names@.len(),
        forall|i: int|
            0 <= i < names@.len() ==> (#[trigger] events@[i] matches KeyEvent::Release(key)
                && key.name@ == names@[i]@),
{
}

/// At the start nothing is done but to connect.
pub proof fn law_start_connects(names: &[&str], actions: Vec<LinkAction>)
    requires
        call_ensures(link_actions, (LinkEvent::Started, names), actions),
    ensures
        actions@.len() == 1,
        actions@[0] is Connect,
{
}

/// When settings change, whatever keys there are, all keys are released first; then
/// the connection is closed, once, and only then a new input is made and connected,
/// once each: no connection from before the change is in force after it.
pub proof fn law_change_connects_anew(names: &[&str], actions: Vec<LinkAction>)
    requires
        call_ensures(link_actions, (LinkEvent::SettingsChanged, names), actions),
    ensures
        actions@.len() == 4,
        actions@[0] matches LinkAction::Write(events) && events@.len() == names@.len() && forall|i: int|
            0 <= i < names@.len() ==> (#[trigger] events@[i] matches KeyEvent::Release(key)
                && key.name@ == names@[i]@),
        actions@[1] is Close,
        actions@[2] is OpenInput,
        actions@[3] is Connect,
{
}

} // verus!
