//! What is done about each MIDI message, and how the connection to the input
//! port is renewed when settings change.

use vstd::prelude::*;

use crate::keys::{self, release_all, KeyEvents};
use crate::midi_message::{self, parse, Event, MidiEventType};

verus! {

/// The controller of the sustain pedal.
pub const SUSTAIN_CONTROL: u8 = 64;

/// The controller of the sostenuto pedal.
pub const SOSTENUTO_CONTROL: u8 = 66;

/// What the output method is asked for. It answers with the key events that
/// carry the request out.
#[derive(Debug, Clone, Copy, PartialEq, Eq, Structural)]
pub enum Request {
    PressNote { note: u8, velocity: u8 },
    ReleaseNote { note: u8 },
    ProcessSustain { value: u8 },
    ProcessSostenuto { value: u8 },
}

/// What is done about a message.
#[derive(Debug, Clone, Copy, PartialEq, Eq, Structural)]
pub enum Reaction {
    /// Nothing: output is switched off.
    Muted,
    /// The output method is asked, and the keys it answers with are written.
    Ask(Request),
    /// No key is written: the controller is none of the two pedals.
    UnknownControl(u8),
    /// No key is written: the channel message is of a kind that has no use.
    UnsupportedType(MidiEventType),
    /// The keyboard is left alone: this is no channel message at all.
    UnsupportedEvent,
}

/// What a channel message asks for, if it asks for anything. A piano may say
/// that a note ends by starting it anew with velocity 0.
pub open spec fn request_of(event: MidiEventType) -> Option<Request> {
    match event {
        MidiEventType::NoteOn(note, velocity) => Some(
            if velocity == 0 {
                Request::ReleaseNote { note }
            } else {
                Request::PressNote { note, velocity }
            },
        ),
        MidiEventType::NoteOff(note, _) => Some(Request::ReleaseNote { note }),
        MidiEventType::Controller(SUSTAIN_CONTROL, value) => Some(Request::ProcessSustain { value }),
        MidiEventType::Controller(SOSTENUTO_CONTROL, value) => Some(Request::ProcessSostenuto { value }),
        _ => None,
    }
}

/// What is done about an event while output is switched on.
pub open spec fn reaction_to(event: Event) -> Reaction {
    match event {
        Event::Midi(midi) => match (request_of(midi.event), midi.event) {
            (Some(request), _) => Reaction::Ask(request),
            (None, MidiEventType::Controller(control, _)) => Reaction::UnknownControl(control),
            (None, other) => Reaction::UnsupportedType(other),
        },
        _ => Reaction::UnsupportedEvent,
    }
}

/// Decides what is done about `event` while output is switched on.
pub fn react(event: Event) -> (reaction: Reaction)
    ensures
        reaction == reaction_to(event),
{
    match event {
        Event::Midi(midi) => match midi.event {
            MidiEventType::NoteOn(note, velocity) => {
                if velocity == 0 {
                    // Some pianos (Alesis Recital Grand, reportedly) send this instead of NoteOff.
                    Reaction::Ask(Request::ReleaseNote { note })
                } else {
                    Reaction::Ask(Request::PressNote { note, velocity })
                }
            },
            MidiEventType::NoteOff(note, _) => Reaction::Ask(Request::ReleaseNote { note }),
            MidiEventType::Controller(control, value) => {
                if control == SUSTAIN_CONTROL {
                    Reaction::Ask(Request::ProcessSustain { value })
                } else if control == SOSTENUTO_CONTROL {
                    Reaction::Ask(Request::ProcessSostenuto { value })
                } else {
                    Reaction::UnknownControl(control)
                }
            },
            other => Reaction::UnsupportedType(other),
        },
        Event::SysEx => Reaction::UnsupportedEvent,
        Event::Escape => Reaction::UnsupportedEvent,
    }
}

/// What is done about `message`, where `output` says whether output is
/// switched on. None where output is on and the message holds no event.
pub open spec fn reaction_to_message(output: bool, message: Seq<u8>) -> Option<Reaction> {
    if !output {
        Some(Reaction::Muted)
    } else {
        match midi_message::event_of(message) {
            Some(event) => Some(reaction_to(event)),
            None => None,
        }
    }
}

/// Decides what is done about a message from the input port. While output is
/// switched off the message is not looked at.
pub fn handle_message(output: bool, message: &[u8]) -> (reaction: Option<Reaction>)
    ensures
        reaction == reaction_to_message(output, message@),
{
    if !output {
        return Some(Reaction::Muted);
    }
    match parse(message) {
        Some(event) => Some(react(event)),
        None => None,
    }
}

/// The key events that are written once `reaction` has been carried out, where
/// `answer` is what the output method answered if it was asked. None where the
/// keyboard is not written to at all.
pub fn keys_to_write(reaction: Reaction, answer: KeyEvents) -> (written: Option<KeyEvents>)
    ensures
        reaction is Ask ==> written == Some(answer),
        reaction is UnknownControl || reaction is UnsupportedType ==> (written matches Some(keys)
            && keys@.len() == 0),
        reaction is Muted || reaction is UnsupportedEvent ==> written is None,
{
    match reaction {
        Reaction::Ask(_) => Some(answer),
        Reaction::UnknownControl(_) => Some(Vec::new()),
        Reaction::UnsupportedType(_) => Some(Vec::new()),
        Reaction::Muted => None,
        Reaction::UnsupportedEvent => None,
    }
}

/// What can happen to the connection.
#[derive(Debug, Clone, Copy, PartialEq, Eq, Structural)]
pub enum LinkEvent {
    /// An input has been made, and nothing has been connected yet.
    Started,
    /// Settings that call for a new connection have changed.
    SettingsChanged,
}

/// One thing to do about the connection.
#[derive(Debug)]
pub enum LinkAction {
    /// Write these key events to the virtual keyboard.
    Write(KeyEvents),
    /// Close the connection, and give up its input.
    Close,
    /// Make a new input.
    OpenInput,
    /// Connect the input to the port that the settings name at this moment.
    Connect,
}

/// `actions` are what `event` calls for, where `names` are those of all keys.
pub open spec fn answers(event: LinkEvent, names: Seq<&str>, actions: Seq<LinkAction>) -> bool {
    match event {
        LinkEvent::Started => actions == seq![LinkAction::Connect],
        LinkEvent::SettingsChanged => {
            &&& actions.len() == 4
            &&& actions[0] matches LinkAction::Write(events) && keys::releases_each(names, events@)
            &&& actions[1] == LinkAction::Close
            &&& actions[2] == LinkAction::OpenInput
            &&& actions[3] == LinkAction::Connect
        },
    }
}

/// How far the connection is.
pub enum Link {
    /// There is an input, and it is not connected.
    Unconnected,
    /// The input is connected.
    Connected,
    /// There is no input.
    Closed,
}

/// The connection once `action` has been carried out. None where the action
/// cannot be carried out as things stand.
pub open spec fn link_after_one(link: Link, action: LinkAction) -> Option<Link> {
    match (link, action) {
        (link, LinkAction::Write(_)) => Some(link),
        (Link::Connected, LinkAction::Close) => Some(Link::Closed),
        (Link::Closed, LinkAction::OpenInput) => Some(Link::Unconnected),
        (Link::Unconnected, LinkAction::Connect) => Some(Link::Connected),
        _ => None,
    }
}

/// The connection once all of `actions` have been carried out in order. None
/// where one of them cannot be.
pub open spec fn link_after(link: Link, actions: Seq<LinkAction>) -> Option<Link>
    decreases actions.len(),
{
    if actions.len() == 0 {
        Some(link)
    } else {
        match link_after(link, actions.drop_last()) {
            Some(before) => link_after_one(before, actions.last()),
            None => None,
        }
    }
}

/// What is done, in order, when `event` happens. A changed setting first has
/// every key released, so that none stays down whose release would be missed.
pub fn link_actions(event: LinkEvent, names: &[&str]) -> (actions: Vec<LinkAction>)
    ensures
        answers(event, names@, actions@),
{
    let mut actions: Vec<LinkAction> = Vec::new();
    match event {
        LinkEvent::Started => {},
        LinkEvent::SettingsChanged => {
            actions.push(LinkAction::Write(release_all(names)));
            actions.push(LinkAction::Close);
            actions.push(LinkAction::OpenInput);
        },
    }
    actions.push(LinkAction::Connect);
    actions
}

} // verus!
