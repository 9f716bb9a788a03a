use miditoqwerty::config::{AvailableOutputMethod, GenericKeymap, SavedConfig};
use miditoqwerty::panel::{
    shows_keymap, shows_velocity, velocity_info_text, Effect, Panel, PanelEvent,
};
use miditoqwerty::settings::{InstalledMethod, MyPortInfo, PortChoice};

fn complete_notes() -> String {
    "k".repeat(61)
}

fn port(handle: usize, name: &str) -> MyPortInfo<usize> {
    MyPortInfo { port: handle, name: name.to_string() }
}

fn first_config() -> SavedConfig {
    SavedConfig::default(&GenericKeymap { keys: complete_notes(), sustain: "space".to_string() })
}

fn opened() -> Panel<usize> {
    Panel::open(first_config(), port(0, "first"), &vec![port(0, "first"), port(1, "second")]).0
}

fn kinds(effects: &[Effect]) -> Vec<&'static str> {
    effects
        .iter()
        .map(|effect| match effect {
            Effect::Reconnect => "reconnect",
            Effect::Install(_) => "install",
            Effect::ResetMethod(_) => "reset",
            Effect::Store(_) => "store",
        })
        .collect()
}

fn stored(effects: &[Effect]) -> &SavedConfig {
    match effects.last() {
        Some(Effect::Store(config)) => config,
        _ => panic!("nothing is stored"),
    }
}

fn assert_generic(method: &InstalledMethod, keys: &str, sustain: &str) {
    match method {
        InstalledMethod::Generic(keymap) => {
            assert_eq!(keymap.keys, keys);
            assert_eq!(keymap.sustain, sustain);
        }
        _ => panic!("not the plain layout"),
    }
}

fn assert_prefers_generic(config: &SavedConfig, keys: &str, sustain: &str) {
    match &config.preferred_output_method {
        AvailableOutputMethod::Generic(Some(keymap)) => {
            assert_eq!(keymap.keys, keys);
            assert_eq!(keymap.sustain, sustain);
        }
        _ => panic!("the plain layout is not preferred"),
    }
}

#[test]
fn the_panel_opens_on_the_configuration() {
    let panel = opened();
    assert_eq!(panel.keymap_text, complete_notes());
    assert_eq!(panel.sustain_text, "space");
    assert!(panel.keymap_valid && panel.sustain_valid);
    assert!(panel.settings.output && panel.settings.pv_velocity);
    assert_eq!(panel.settings.connection_target().name, "first");
    assert_generic(&panel.settings.output_method, &complete_notes(), "space");
}

#[test]
fn the_panel_opens_on_the_preferred_port() {
    let mut config = first_config();
    config.preferred_port_name = Some("second".to_string());
    let ports = vec![port(0, "first"), port(1, "second")];
    let (panel, choice) = Panel::open(config, port(0, "first"), &ports);
    assert_eq!(choice, PortChoice::Preferred);
    assert_eq!(panel.settings.connection_target().port, 1);
}

#[test]
fn an_unchecked_saved_keymap_counts_as_valid() {
    let mut config = first_config();
    config.saved_generic_keymap.keys = "short".to_string();
    let (panel, _) = Panel::open(config, port(0, "first"), &vec![]);
    assert!(panel.keymap_valid);
    assert_eq!(panel.keymap_text, "short");
}

#[test]
fn choosing_a_port_reconnects_and_is_remembered() {
    let mut panel = opened();
    let effects = panel.handle(PanelEvent::ChoosePort(port(9, "stage piano")));
    assert_eq!(kinds(&effects), ["reconnect", "store"]);
    assert_eq!(panel.settings.connection_target().port, 9);
    assert_eq!(stored(&effects).preferred_port_name.as_deref(), Some("stage piano"));

    let ports = vec![port(2, "first"), port(5, "stage piano")];
    let (reopened, choice) = Panel::open(stored(&effects).clone(), port(2, "first"), &ports);
    assert_eq!(choice, PortChoice::Preferred);
    assert_eq!(reopened.settings.connection_target().port, 5);
    let (reopened, choice) = Panel::open(panel.config, port(2, "first"), &vec![port(2, "first")]);
    assert_eq!(choice, PortChoice::NotFound);
    assert_eq!(reopened.settings.connection_target().name, "first");
}

#[test]
fn choosing_the_plain_layout_takes_the_editor_text_as_it_is() {
    let mut panel = opened();
    panel.handle(PanelEvent::EditKeymap("too short".to_string()));
    let effects = panel.handle(PanelEvent::ChooseGeneric);
    assert_eq!(kinds(&effects), ["reconnect", "install", "store"]);
    assert_generic(&panel.settings.output_method, "too short", "space");
    assert_prefers_generic(stored(&effects), "too short", "space");
    assert_eq!(stored(&effects).saved_generic_keymap.keys, complete_notes());
    assert!(matches!(&effects[1], Effect::Install(method) if matches!(method, InstalledMethod::Generic(_))));
}

#[test]
fn choosing_the_visualizer_tells_it_about_velocity() {
    let mut panel = opened();
    let effects = panel.handle(PanelEvent::ChoosePv);
    assert_eq!(kinds(&effects), ["reconnect", "install", "reset", "store"]);
    assert!(matches!(effects[2], Effect::ResetMethod("velocity-on")));
    assert!(matches!(panel.settings.output_method, InstalledMethod::PV));
    assert!(matches!(stored(&effects).preferred_output_method, AvailableOutputMethod::PV));

    panel.handle(PanelEvent::ClickVelocity(false));
    let effects = panel.handle(PanelEvent::ChoosePv);
    assert!(matches!(effects[2], Effect::ResetMethod("velocity-off")));
}

#[test]
fn choosing_piano_rooms_installs_it() {
    let mut panel = opened();
    let effects = panel.handle(PanelEvent::ChoosePianoRooms);
    assert_eq!(kinds(&effects), ["reconnect", "install", "store"]);
    assert!(matches!(effects[1], Effect::Install(InstalledMethod::PianoRooms)));
    assert!(matches!(panel.settings.output_method, InstalledMethod::PianoRooms));
    assert!(matches!(panel.config.preferred_output_method, AvailableOutputMethod::PianoRooms));
}

#[test]
fn the_velocity_switch_resets_the_method() {
    let mut panel = opened();
    let effects = panel.handle(PanelEvent::ClickVelocity(false));
    assert_eq!(kinds(&effects), ["reconnect", "reset"]);
    assert!(matches!(effects[1], Effect::ResetMethod("velocity-off")));
    assert!(!panel.settings.pv_velocity);
    let effects = panel.handle(PanelEvent::ClickVelocity(true));
    assert!(matches!(effects[1], Effect::ResetMethod("velocity-on")));
    assert!(panel.settings.pv_velocity);
}

#[test]
fn the_output_switch_resets_the_method() {
    let mut panel = opened();
    let effects = panel.handle(PanelEvent::ClickOutput(false));
    assert_eq!(kinds(&effects), ["reconnect", "reset"]);
    assert!(matches!(effects[1], Effect::ResetMethod("")));
    assert!(!panel.settings.output);
}

#[test]
fn a_complete_keymap_is_used_and_saved() {
    let mut panel = opened();
    let notes = "n".repeat(61);
    let effects = panel.handle(PanelEvent::EditKeymap(notes.clone()));
    assert_eq!(kinds(&effects), ["reconnect", "install", "store"]);
    assert!(panel.keymap_valid);
    assert_generic(&panel.settings.output_method, &notes, "space");
    assert_prefers_generic(stored(&effects), &notes, "space");
    assert_eq!(stored(&effects).saved_generic_keymap.keys, notes);

    let (reopened, _) = Panel::open(stored(&effects).clone(), port(0, "first"), &vec![]);
    assert_eq!(reopened.keymap_text, notes);
    assert_generic(&reopened.settings.output_method, &notes, "space");
}

#[test]
fn an_incomplete_keymap_is_marked_and_left_alone() {
    for notes in ["n".repeat(60), "n".repeat(62), String::new()] {
        let mut panel = opened();
        let effects = panel.handle(PanelEvent::EditKeymap(notes.clone()));
        assert!(effects.is_empty());
        assert!(!panel.keymap_valid);
        assert_eq!(panel.keymap_text, notes);
        assert_generic(&panel.settings.output_method, &complete_notes(), "space");
        assert_eq!(panel.config.saved_generic_keymap.keys, complete_notes());
    }
}

#[test]
fn a_keymap_is_measured_in_bytes() {
    let mut panel = opened();
    let two_bytes_each = "\u{e9}".repeat(30) + "k";
    assert_eq!(panel.handle(PanelEvent::EditKeymap(two_bytes_each)).len(), 3);
    assert!(panel.keymap_valid);
    assert!(panel.handle(PanelEvent::EditKeymap("\u{e9}".repeat(61))).is_empty());
    assert!(!panel.keymap_valid);
}

#[test]
fn a_known_sustain_key_is_used_and_saved() {
    let mut panel = opened();
    let effects =
        panel.handle(PanelEvent::EditSustain { text: "shift".to_string(), known: true });
    assert_eq!(kinds(&effects), ["reconnect", "install", "store"]);
    assert!(panel.sustain_valid);
    assert_generic(&panel.settings.output_method, &complete_notes(), "shift");
    assert_eq!(stored(&effects).saved_generic_keymap.sustain, "shift");
    assert_prefers_generic(stored(&effects), &complete_notes(), "shift");
}

#[test]
fn an_unknown_sustain_key_is_marked_and_left_alone() {
    let mut panel = opened();
    let effects =
        panel.handle(PanelEvent::EditSustain { text: "spac".to_string(), known: false });
    assert!(effects.is_empty());
    assert!(!panel.sustain_valid);
    assert_eq!(panel.sustain_text, "spac");
    assert_generic(&panel.settings.output_method, &complete_notes(), "space");
    assert_eq!(panel.config.saved_generic_keymap.sustain, "space");
}

#[test]
fn a_sustain_key_saves_the_notes_as_they_stand() {
    let mut panel = opened();
    panel.handle(PanelEvent::EditKeymap("short".to_string()));
    let effects =
        panel.handle(PanelEvent::EditSustain { text: "shift".to_string(), known: true });
    assert_eq!(stored(&effects).saved_generic_keymap.keys, "short");
    assert!(!panel.keymap_valid);
}

#[test]
fn a_reset_brings_the_standard_keymap_back() {
    let mut panel = opened();
    panel.handle(PanelEvent::EditKeymap("short".to_string()));
    panel.handle(PanelEvent::EditSustain { text: "?".to_string(), known: false });
    let effects = panel.handle(PanelEvent::ResetKeymap(b"1!2@34".to_vec()));
    assert_eq!(kinds(&effects), ["install", "store"]);
    assert_eq!(panel.keymap_text, "1!2@34");
    assert_eq!(panel.sustain_text, "space");
    assert!(panel.keymap_valid && panel.sustain_valid);
    assert_generic(&panel.settings.output_method, "1!2@34", "space");
    assert_eq!(stored(&effects).saved_generic_keymap.keys, "1!2@34");
    assert_prefers_generic(stored(&effects), "1!2@34", "space");
}

#[test]
fn standard_notes_outside_utf8_are_replaced() {
    let mut panel = opened();
    panel.handle(PanelEvent::ResetKeymap(vec![b'a', 0xff, 0xc3, 0xa9]));
    assert_eq!(panel.keymap_text, "a\u{fffd}\u{e9}");
}

#[test]
fn a_reset_takes_the_notes_it_is_given() {
    let mut panel = opened();
    let effects = panel.reset_keymap("qwe".to_string());
    assert_eq!(kinds(&effects), ["install", "store"]);
    assert_generic(&panel.settings.output_method, "qwe", "space");
}

#[test]
fn the_method_in_use_is_always_the_stored_one() {
    let mut panel = opened();
    let mut disk = panel.config.clone();
    for event in [
        PanelEvent::ChoosePv,
        PanelEvent::ClickOutput(false),
        PanelEvent::ChoosePianoRooms,
        PanelEvent::EditKeymap("bad".to_string()),
        PanelEvent::ChooseGeneric,
        PanelEvent::ChoosePort(port(4, "p")),
    ] {
        for effect in panel.handle(event) {
            if let Effect::Store(config) = effect {
                disk = config;
            }
        }
    }
    let (reopened, _) = Panel::open(disk, port(0, "first"), &vec![]);
    assert_generic(&reopened.settings.output_method, "bad", "space");
    assert_generic(&panel.settings.output_method, "bad", "space");
    assert_eq!(reopened.config.preferred_port_name.as_deref(), Some("p"));
}

#[test]
fn extra_controls_go_with_the_method_name() {
    assert!(shows_velocity(&"Piano Visualizations".to_string()));
    assert!(!shows_velocity(&"Generic".to_string()));
    assert!(shows_keymap(&"Generic".to_string()));
    assert!(!shows_keymap(&"Piano Rooms".to_string()));
    assert_eq!(velocity_info_text(true), "velocity-on");
    assert_eq!(velocity_info_text(false), "velocity-off");
}
