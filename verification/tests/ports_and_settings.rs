use miditoqwerty::config::{AvailableOutputMethod, GenericKeymap, SavedConfig};
use miditoqwerty::settings::{
    first_port, list_ports, InstalledMethod, MyPortInfo, PortChoice, Settings,
};

fn keymap(keys: &str, sustain: &str) -> GenericKeymap {
    GenericKeymap { keys: keys.to_string(), sustain: sustain.to_string() }
}

fn ports(names: &[&str]) -> Vec<MyPortInfo<usize>> {
    list_ports(names.iter().enumerate().map(|(i, name)| (i, Some(name.to_string()))).collect())
}

fn some_settings() -> Settings<usize> {
    Settings::with_output_method(AvailableOutputMethod::PV)
        .set_port(MyPortInfo { port: 100, name: "first".to_string() })
}

#[test]
fn a_first_run_uses_the_standard_keymap() {
    let config = SavedConfig::default(&keymap("abc", "space"));
    assert_eq!(config.preferred_port_name, None);
    match &config.preferred_output_method {
        AvailableOutputMethod::Generic(Some(used)) => {
            assert_eq!(used.keys, "abc");
            assert_eq!(used.sustain, "space");
        }
        _ => panic!("not the plain layout"),
    }
    assert_eq!(config.saved_generic_keymap.keys, "abc");
    assert_eq!(config.saved_generic_keymap.sustain, "space");
    assert!(config.preferred_output_method.is_complete());
}

#[test]
fn only_a_plain_layout_without_keymap_is_incomplete() {
    assert!(!AvailableOutputMethod::Generic(None).is_complete());
    assert!(AvailableOutputMethod::Generic(Some(keymap("", ""))).is_complete());
    assert!(AvailableOutputMethod::PV.is_complete());
    assert!(AvailableOutputMethod::PianoRooms.is_complete());
}

#[test]
fn settings_start_with_the_chosen_method() {
    let generic: Settings<usize> =
        Settings::with_output_method(AvailableOutputMethod::Generic(Some(keymap("xyz", "tab"))));
    match &generic.output_method {
        InstalledMethod::Generic(used) => {
            assert_eq!(used.keys, "xyz");
            assert_eq!(used.sustain, "tab");
        }
        _ => panic!("not the plain layout"),
    }
    assert!(generic.port.is_none());
    assert!(generic.output);
    assert!(generic.pv_velocity);

    let pv: Settings<usize> = Settings::with_output_method(AvailableOutputMethod::PV);
    assert!(matches!(pv.output_method, InstalledMethod::PV));
    let rooms: Settings<usize> = Settings::with_output_method(AvailableOutputMethod::PianoRooms);
    assert!(matches!(rooms.output_method, InstalledMethod::PianoRooms));
}

#[test]
fn setting_a_port_changes_the_port_alone() {
    let settings = some_settings().set_port(MyPortInfo { port: 7, name: "piano".to_string() });
    let target = settings.connection_target();
    assert_eq!(target.port, 7);
    assert_eq!(target.name, "piano");
    assert!(matches!(settings.output_method, InstalledMethod::PV));
    assert!(settings.output && settings.pv_velocity);
}

#[test]
fn a_port_is_shown_by_its_name() {
    let port = MyPortInfo { port: 0, name: "Digital Piano".to_string() };
    assert_eq!(port.fmt(), "Digital Piano");
}

#[test]
fn a_port_without_a_name_is_no_longer_valid() {
    let listed = list_ports(vec![(3, Some("a".to_string())), (5, None)]);
    assert_eq!(listed.len(), 2);
    assert_eq!((listed[0].port, listed[0].name.as_str()), (3, "a"));
    assert_eq!((listed[1].port, listed[1].name.as_str()), (5, "This port is no longer valid."));
}

#[test]
fn the_first_port_is_the_first_of_the_list() {
    let first = first_port(&ports(&["x", "y"])).unwrap();
    assert_eq!((first.port, first.name.as_str()), (0, "x"));
    assert!(first_port(&ports(&[])).is_none());
}

#[test]
fn the_first_port_of_the_preferred_name_is_used() {
    let mut settings = some_settings();
    let choice = settings.prefer_port(&Some("b".to_string()), &ports(&["a", "b", "b"]));
    assert_eq!(choice, PortChoice::Preferred);
    assert_eq!(settings.connection_target().port, 1);
    assert_eq!(settings.connection_target().name, "b");
}

#[test]
fn a_missing_preferred_port_changes_nothing() {
    let mut settings = some_settings();
    let choice = settings.prefer_port(&Some("c".to_string()), &ports(&["a", "b"]));
    assert_eq!(choice, PortChoice::NotFound);
    assert_eq!(settings.connection_target().name, "first");
}

#[test]
fn without_a_preference_nothing_changes() {
    let mut settings = some_settings();
    assert_eq!(settings.prefer_port(&None, &ports(&["a"])), PortChoice::NoPreference);
    assert_eq!(settings.connection_target().name, "first");
}
