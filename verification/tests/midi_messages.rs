use miditoqwerty::keys::{Key, KeyEvent};
use miditoqwerty::midi_message::{Event, MidiEvent, MidiEventType};
use miditoqwerty::midi_update::{
    handle_message, keys_to_write, link_actions, react, LinkAction, LinkEvent, Reaction, Request,
};

fn names_released(events: &[KeyEvent]) -> Vec<String> {
    events
        .iter()
        .map(|event| match event {
            KeyEvent::Release(key) => key.name.clone(),
            KeyEvent::Press(_) => panic!("a press among the releases"),
        })
        .collect()
}

#[test]
fn a_struck_note_is_pressed() {
    assert_eq!(
        handle_message(true, &[0x90, 60, 100]),
        Some(Reaction::Ask(Request::PressNote { note: 60, velocity: 100 }))
    );
}

#[test]
fn an_ended_note_is_released() {
    assert_eq!(
        handle_message(true, &[0x80, 60, 64]),
        Some(Reaction::Ask(Request::ReleaseNote { note: 60 }))
    );
}

#[test]
fn zero_velocity_ends_the_note() {
    assert_eq!(
        handle_message(true, &[0x93, 72, 0]),
        Some(Reaction::Ask(Request::ReleaseNote { note: 72 }))
    );
    assert_eq!(handle_message(true, &[0x93, 72, 0]), handle_message(true, &[0x8f, 72, 33]));
}

#[test]
fn pedals_are_recognised() {
    assert_eq!(
        handle_message(true, &[0xb0, 64, 127]),
        Some(Reaction::Ask(Request::ProcessSustain { value: 127 }))
    );
    assert_eq!(
        handle_message(true, &[0xb0, 66, 0]),
        Some(Reaction::Ask(Request::ProcessSostenuto { value: 0 }))
    );
}

#[test]
fn other_controls_are_unknown() {
    assert_eq!(handle_message(true, &[0xb0, 65, 12]), Some(Reaction::UnknownControl(65)));
    assert_eq!(handle_message(true, &[0xb0, 1, 12]), Some(Reaction::UnknownControl(1)));
}

#[test]
fn other_channel_messages_are_unsupported() {
    assert_eq!(
        handle_message(true, &[0xa0, 60, 5]),
        Some(Reaction::UnsupportedType(MidiEventType::PolyphonicPressure(60, 5)))
    );
    assert_eq!(
        handle_message(true, &[0xc0, 7]),
        Some(Reaction::UnsupportedType(MidiEventType::ProgramChange(7)))
    );
    assert_eq!(
        handle_message(true, &[0xd0, 9]),
        Some(Reaction::UnsupportedType(MidiEventType::ChannelPressure(9)))
    );
    assert_eq!(
        handle_message(true, &[0xe0, 1, 64]),
        Some(Reaction::UnsupportedType(MidiEventType::PitchBend(1, 64)))
    );
}

#[test]
fn system_exclusive_is_no_channel_message() {
    assert_eq!(handle_message(true, &[0xf0, 1, 2, 0xf7]), Some(Reaction::UnsupportedEvent));
    assert_eq!(handle_message(true, &[0xf0]), Some(Reaction::UnsupportedEvent));
    assert_eq!(react(Event::Escape), Reaction::UnsupportedEvent);
}

#[test]
fn a_message_without_an_event_has_no_reaction() {
    for message in [
        &[][..],
        &[0x90][..],
        &[0x90, 60][..],
        &[0x80, 60][..],
        &[0xb0, 64][..],
        &[0xc0][..],
        &[0xd0][..],
        &[0xe0, 1][..],
        &[0xf1, 0, 0][..],
        &[0xf8][..],
        &[0xff, 1, 2][..],
        &[60, 60, 60][..],
    ] {
        assert_eq!(handle_message(true, message), None);
    }
}

#[test]
fn a_muted_message_is_not_looked_at() {
    assert_eq!(handle_message(false, &[0x90, 60, 100]), Some(Reaction::Muted));
    assert_eq!(handle_message(false, &[]), Some(Reaction::Muted));
}

#[test]
fn data_bytes_have_seven_bits() {
    assert_eq!(
        handle_message(true, &[0x90, 0xbc, 0xe4]),
        Some(Reaction::Ask(Request::PressNote { note: 60, velocity: 100 }))
    );
    assert_eq!(
        handle_message(true, &[0x90, 60, 0x80]),
        Some(Reaction::Ask(Request::ReleaseNote { note: 60 }))
    );
}

#[test]
fn the_channel_makes_no_difference() {
    for channel in 0u8..16 {
        assert_eq!(
            handle_message(true, &[0x90 | channel, 21, 1]),
            Some(Reaction::Ask(Request::PressNote { note: 21, velocity: 1 }))
        );
    }
}

#[test]
fn a_given_event_is_decided_alike() {
    let event = Event::Midi(MidiEvent { channel: 3, event: MidiEventType::NoteOn(40, 1) });
    assert_eq!(react(event), Reaction::Ask(Request::PressNote { note: 40, velocity: 1 }));
}

#[test]
fn the_answer_is_written() {
    let asked = Reaction::Ask(Request::ReleaseNote { note: 60 });
    let answer = vec![KeyEvent::Press(Key::new("shift")), KeyEvent::Release(Key::new("t"))];
    let written = keys_to_write(asked, answer).unwrap();
    assert_eq!(written.len(), 2);
    assert!(matches!(&written[0], KeyEvent::Press(key) if key.name == "shift"));
    assert!(matches!(&written[1], KeyEvent::Release(key) if key.name == "t"));
}

#[test]
fn nothing_is_written_unasked() {
    let answer = || vec![KeyEvent::Press(Key::new("a"))];
    assert!(keys_to_write(Reaction::UnknownControl(1), answer()).unwrap().is_empty());
    let unsupported = Reaction::UnsupportedType(MidiEventType::ProgramChange(1));
    assert!(keys_to_write(unsupported, answer()).unwrap().is_empty());
    assert!(keys_to_write(Reaction::Muted, answer()).is_none());
    assert!(keys_to_write(Reaction::UnsupportedEvent, answer()).is_none());
}

#[test]
fn the_start_connects() {
    let actions = link_actions(LinkEvent::Started, &["a", "space"]);
    assert_eq!(actions.len(), 1);
    assert!(matches!(actions[0], LinkAction::Connect));
}

#[test]
fn changed_settings_release_all_keys_and_connect_anew() {
    let actions = link_actions(LinkEvent::SettingsChanged, &["a", "space", "1"]);
    assert_eq!(actions.len(), 4);
    match &actions[0] {
        LinkAction::Write(events) => assert_eq!(names_released(events), ["a", "space", "1"]),
        _ => panic!("the keys are not released first"),
    }
    assert!(matches!(actions[1], LinkAction::Close));
    assert!(matches!(actions[2], LinkAction::OpenInput));
    assert!(matches!(actions[3], LinkAction::Connect));
}

#[test]
fn an_empty_key_table_releases_nothing() {
    let actions = link_actions(LinkEvent::SettingsChanged, &[]);
    assert!(matches!(&actions[0], LinkAction::Write(events) if events.is_empty()));
}

#[test]
fn there_is_one_connection_after_every_change() {
    let mut inputs: usize = 1;
    let mut connections: usize = 0;
    for event in [LinkEvent::Started, LinkEvent::SettingsChanged, LinkEvent::SettingsChanged] {
        for action in link_actions(event, &["a"]) {
            match action {
                LinkAction::Write(_) => assert_eq!(connections, 1),
                LinkAction::Close => connections -= 1,
                LinkAction::OpenInput => inputs += 1,
                LinkAction::Connect => {
                    inputs -= 1;
                    connections += 1;
                }
            }
        }
        assert_eq!((inputs, connections), (0, 1));
    }
}
