//! What the functions that start the program return, said of their results and
//! of the configuration and the ports that they are given.

use vstd::prelude::*;

use crate::config::{self, AvailableOutputMethod, GenericKeymap, SavedConfig};
use crate::panel::Panel;
use crate::settings::{
    self, first_port, list_ports, InstalledMethod, MyPortInfo, PortChoice, Settings, SettingsModel,
};

verus! {

/// Two keymaps have the same notes and the same sustain key.
pub open spec fn same_keymap(a: GenericKeymap, b: GenericKeymap) -> bool {
    a.keys@ == b.keys@ && a.sustain@ == b.sustain@
}

/// `method` is what is set up for `choice`.
pub open spec fn set_up_for(method: InstalledMethod, choice: AvailableOutputMethod) -> bool {
    match choice {
        AvailableOutputMethod::Generic(Some(chosen)) => method matches InstalledMethod::Generic(keymap)
            && same_keymap(keymap, chosen),
        AvailableOutputMethod::Generic(None) => false,
        AvailableOutputMethod::PV => method is PV,
        AvailableOutputMethod::PianoRooms => method is PianoRooms,
    }
}

/// Two methods that have been set up are the same.
pub open spec fn same_method(a: InstalledMethod, b: InstalledMethod) -> bool {
    match a {
        InstalledMethod::Generic(x) => b matches InstalledMethod::Generic(y) && same_keymap(x, y),
        InstalledMethod::PV => b is PV,
        InstalledMethod::PianoRooms => b is PianoRooms,
    }
}

/// Two choices of a method are the same.
pub open spec fn same_choice(a: AvailableOutputMethod, b: AvailableOutputMethod) -> bool {
    match a {
        AvailableOutputMethod::Generic(Some(x)) => b matches AvailableOutputMethod::Generic(Some(y))
            && same_keymap(x, y),
        AvailableOutputMethod::Generic(None) => b matches AvailableOutputMethod::Generic(None),
        AvailableOutputMethod::PV => b is PV,
        AvailableOutputMethod::PianoRooms => b is PianoRooms,
    }
}

/// Two optional strings have the same text.
pub open spec fn same_text(a: Option<String>, b: Option<String>) -> bool {
    match a {
        Some(x) => b matches Some(y) && x@ == y@,
        None => b is None,
    }
}

/// Two configurations are the same in every entry.
pub open spec fn same_config(a: SavedConfig, b: SavedConfig) -> bool {
    &&& same_text(a.preferred_port_name, b.preferred_port_name)
    &&& same_choice(a.preferred_output_method, b.preferred_output_method)
    &&& same_keymap(a.saved_generic_keymap, b.saved_generic_keymap)
}

/// Two ports have the same handle and the same name.
pub open spec fn same_port<P>(a: MyPortInfo<P>, b: MyPortInfo<P>) -> bool {
    a.port == b.port && a.name@ == b.name@
}

/// The port in two settings is the same.
pub open spec fn same_target<P>(a: Option<MyPortInfo<P>>, b: Option<MyPortInfo<P>>) -> bool {
    match a {
        Some(x) => b matches Some(y) && same_port(x, y),
        None => b is None,
    }
}

/// One of `ports` has the name `name`.
pub open spec fn listed<P>(ports: Seq<MyPortInfo<P>>, name: Seq<char>) -> bool {
    exists|i: int| 0 <= i < ports.len() && (#[trigger] ports[i]).name@ == name
}

/// `target` is a copy of the first of `ports` whose name is `name`.
pub open spec fn copies_first_listed<P: Clone>(
    target: Option<MyPortInfo<P>>,
    ports: Seq<MyPortInfo<P>>,
    name: Seq<char>,
) -> bool {
    exists|i: int|
        {
            &&& 0 <= i < ports.len()
            &&& (#[trigger] ports[i]).name@ == name
            &&& forall|j: int| 0 <= j < i ==> (#[trigger] ports[j]).name@ != name
            &&& target matches Some(port) && port.name@ == name && cloned(ports[i].port, port.port)
        }
}

/// `target` is what is listened to where `fallback` was before the preference for
/// `preferred` was looked at, and `choice` says how that turned out.
pub open spec fn follows_preference<P: Clone>(
    target: Option<MyPortInfo<P>>,
    fallback: Option<MyPortInfo<P>>,
    preferred: Option<String>,
    ports: Seq<MyPortInfo<P>>,
    choice: PortChoice,
) -> bool {
    match preferred {
        None => choice is NoPreference && same_target(target, fallback),
        Some(name) => {
            &&& listed(ports, name@) ==> choice is Preferred && copies_first_listed(target, ports, name@)
            &&& !listed(ports, name@) ==> choice is NotFound && same_target(target, fallback)
        },
    }
}

/// Configurations have the same model just where they are the same in every entry,
/// and so have settings and panels.
pub proof fn law_models_hide_nothing<P>(a: SavedConfig, b: SavedConfig, x: Panel<P>, y: Panel<P>)
    ensures
        a@ == b@ <==> same_config(a, b),
        x.settings@ == y.settings@ <==> {
            &&& same_method(x.settings.output_method, y.settings.output_method)
            &&& same_target(x.settings.port, y.settings.port)
            &&& x.settings.output == y.settings.output
            &&& x.settings.pv_velocity == y.settings.pv_velocity
        },
        x@ == y@ <==> {
            &&& x.settings@ == y.settings@
            &&& x.config@ == y.config@
            &&& x.keymap_text@ == y.keymap_text@
            &&& x.keymap_valid == y.keymap_valid
            &&& x.sustain_text@ == y.sustain_text@
            &&& x.sustain_valid == y.sustain_valid
        },
{
}

/// Copies of a keymap, of a choice, of a method and of a configuration are the same
/// as what they are copies of.
pub proof fn law_copies_are_the_same(
    keymap: GenericKeymap,
    keymap_copy: GenericKeymap,
    chosen: AvailableOutputMethod,
    chosen_copy: AvailableOutputMethod,
    method: InstalledMethod,
    method_copy: InstalledMethod,
    config: SavedConfig,
    config_copy: SavedConfig,
)
    requires
        call_ensures(GenericKeymap::clone, (&keymap,), keymap_copy),
        call_ensures(AvailableOutputMethod::clone, (&chosen,), chosen_copy),
        call_ensures(InstalledMethod::clone, (&method,), method_copy),
        call_ensures(SavedConfig::clone, (&config,), config_copy),
    ensures
        same_keymap(keymap_copy, keymap),
        same_choice(chosen_copy, chosen),
        same_method(method_copy, method),
        same_config(config_copy, config),
{
}

/// A copy of a port has its name and a clone of its handle.
pub proof fn law_port_copy<P: Clone>(port: &MyPortInfo<P>, copy: MyPortInfo<P>)
    requires
        call_ensures(MyPortInfo::<P>::clone, (port,), copy),
    ensures
        copy.name@ == port.name@,
        cloned(port.port, copy.port),
{
}

/// A first run prefers no port, and both prefers and has saved the standard keymap.
pub proof fn law_default_config(standard: &GenericKeymap, config: SavedConfig)
    requires
        call_ensures(SavedConfig::default, (standard,), config),
    ensures
        config.preferred_port_name is None,
        config.preferred_output_method matches AvailableOutputMethod::Generic(Some(keymap))
            && same_keymap(keymap, *standard),
        same_keymap(config.saved_generic_keymap, *standard),
{
}

/// Just the plain layout without a keymap cannot be set up.
pub proof fn law_complete_methods(method: &AvailableOutputMethod, complete: bool)
    requires
        call_ensures(AvailableOutputMethod::is_complete, (method,), complete),
    ensures
        complete <==> !(*method matches AvailableOutputMethod::Generic(None)),
{
}

/// Settings start with just the method that was chosen, without a port, and with
/// both switches on.
pub proof fn law_starting_settings<P>(method: AvailableOutputMethod, settings: Settings<P>)
    requires
        !(method matches AvailableOutputMethod::Generic(None)),
        call_ensures(Settings::<P>::with_output_method, (method,), settings),
    ensures
        set_up_for(settings.output_method, method),
        settings.port is None,
        settings.output,
        settings.pv_velocity,
{
}

/// Setting a port sets just the port.
pub proof fn law_port_is_set<P>(before: Settings<P>, port: MyPortInfo<P>, after: Settings<P>)
    requires
        call_ensures(Settings::<P>::set_port, (before, port), after),
    ensures
        after.port matches Some(target) && same_port(target, port),
        same_method(after.output_method, before.output_method),
        after.output == before.output,
        after.pv_velocity == before.pv_velocity,
{
}

/// The port to connect to is the one in the settings.
pub proof fn law_connection_target<P>(settings: &Settings<P>, target: &MyPortInfo<P>)
    requires
        settings.port is Some,
        call_ensures(Settings::<P>::connection_target, (settings,), target),
    ensures
        settings.port matches Some(port) && same_port(*target, port),
{
}

/// A port is shown by its own name, whether it was chosen or only listed.
pub proof fn law_port_is_shown<P>(port: &MyPortInfo<P>, shown: String)
    requires
        call_ensures(MyPortInfo::<P>::fmt, (port,), shown),
    ensures
        shown@ == port.name@,
{
}

/// A port gets the name that could be read, and else the one that says that it is
/// no longer valid.
pub proof fn law_port_name<P>(port: P, name: Option<String>, info: MyPortInfo<P>)
    requires
        call_ensures(MyPortInfo::<P>::with_name, (port, name), info),
    ensures
        info.port == port,
        name matches Some(text) ==> info.name@ == text@,
        name is None ==> info.name@ == "This port is no longer valid."@,
{
}

/// Every port that was found is listed, in its place, with its handle and with the
/// name that could be read of it.
pub proof fn law_listed_ports<P>(found: Vec<(P, Option<String>)>, ports: Vec<MyPortInfo<P>>)
    requires
        call_ensures(list_ports::<P>, (found,), ports),
    ensures
        ports@.len() == found@.len(),
        forall|i: int|
            0 <= i < ports@.len() ==> {
                &&& (#[trigger] ports@[i]).port == found@[i].0
                &&& found@[i].1 matches Some(text) ==> ports@[i].name@ == text@
                &&& found@[i].1 is None ==> ports@[i].name@ == "This port is no longer valid."@
            },
{
    assert forall|i: int| 0 <= i < ports@.len() implies {
        &&& (#[trigger] ports@[i]).port == found@[i].0
        &&& found@[i].1 matches Some(text) ==> ports@[i].name@ == text@
        &&& found@[i].1 is None ==> ports@[i].name@ == "This port is no longer valid."@
    } by {
        assert(ports@[i]@.port == found@[i].0);
    }
}

/// There is a first port just where there is a port, and it is the first one.
pub proof fn law_first_port<P: Clone>(ports: &Vec<MyPortInfo<P>>, first: Option<MyPortInfo<P>>)
    requires
        call_ensures(first_port::<P>, (ports,), first),
    ensures
        first is Some <==> ports@.len() > 0,
        first matches Some(port) ==> port.name@ == ports@[0].name@ && cloned(
            ports@[0].port,
            port.port,
        ),
{
}

/// What is said of the models of settings holds of the ports in them.
proof fn lemma_preference<P: Clone>(
    before: SettingsModel<P>,
    after: SettingsModel<P>,
    target: Option<MyPortInfo<P>>,
    fallback: Option<MyPortInfo<P>>,
    preferred: Option<String>,
    ports: Seq<MyPortInfo<P>>,
    choice: PortChoice,
)
    requires
        settings::preference_applied(before, after, config::text_of(preferred), ports, choice),
        after.port == (match target {
            Some(port) => Some(port@),
            None => None,
        }),
        before.port == (match fallback {
            Some(port) => Some(port@),
            None => None,
        }),
    ensures
        follows_preference(target, fallback, preferred, ports, choice),
{
    if let Some(name) = preferred {
        if listed(ports, name@) {
            let i = choose|i: int| 0 <= i < ports.len() && (#[trigger] ports[i]).name@ == name@;
            assert(ports[i]@.name == name@);
            assert(settings::has_named(ports, name@));
            let k = choose|k: int| #[trigger]
                settings::first_named(ports, name@, k) && (after.port matches Some(port)
                    && settings::is_copy(ports[k]@, port));
            assert forall|j: int| 0 <= j < k implies (#[trigger] ports[j]).name@ != name@ by {
                assert(ports[j]@.name != name@);
            }
            assert(ports[k].name@ == name@);
        } else {
            assert forall|i: int| 0 <= i < ports.len() implies #[trigger] ports[i]@.name != name@ by {
                assert(ports[i].name@ != name@);
            }
            assert(!settings::has_named(ports, name@));
        }
    }
}

/// A preference for a port is followed where a port of that name is listed, and
/// changes just the port.
pub proof fn law_preferred_port<P: Clone>(
    settings: &mut Settings<P>,
    preferred: &Option<String>,
    ports: &Vec<MyPortInfo<P>>,
    choice: PortChoice,
)
    requires
        call_ensures(Settings::<P>::prefer_port, (settings, preferred, ports), choice),
    ensures
        follows_preference(
            final(settings).port,
            old(settings).port,
            *preferred,
            ports@,
            choice,
        ),
        same_method(final(settings).output_method, old(settings).output_method),
        final(settings).output == old(settings).output,
        final(settings).pv_velocity == old(settings).pv_velocity,
{
    lemma_preference(
        old(settings)@,
        final(settings)@,
        final(settings).port,
        old(settings).port,
        *preferred,
        ports@,
        choice,
    );
}

/// The panel opens on the configuration that it is given: with the preferred
/// method in use, whatever it is, with the saved keymap in the editor, whatever
/// method is in use, with both switches on and nothing marked as wrong.
pub proof fn law_opened_panel<P: Clone>(
    config: SavedConfig,
    first: MyPortInfo<P>,
    ports: &Vec<MyPortInfo<P>>,
    opened: (Panel<P>, PortChoice),
)
    requires
        !(config.preferred_output_method matches AvailableOutputMethod::Generic(None)),
        call_ensures(Panel::<P>::open, (config, first, ports), opened),
    ensures
        set_up_for(opened.0.settings.output_method, config.preferred_output_method),
        opened.0.keymap_text@ == config.saved_generic_keymap.keys@,
        opened.0.sustain_text@ == config.saved_generic_keymap.sustain@,
        opened.0.keymap_valid,
        opened.0.sustain_valid,
        opened.0.settings.output,
        opened.0.settings.pv_velocity,
        same_config(opened.0.config, config),
        follows_preference(
            opened.0.settings.port,
            Some(first),
            config.preferred_port_name,
            ports@,
            opened.1,
        ),
{
    assert(opened.0@.edited_keymap() == config.saved_generic_keymap@);
    let start = SettingsModel {
        output_method: opened.0.settings@.output_method,
        port: Some(first@),
        output: true,
        pv_velocity: true,
    };
    lemma_preference(
        start,
        opened.0.settings@,
        opened.0.settings.port,
        Some(first),
        config.preferred_port_name,
        ports@,
        opened.1,
    );
}

} // verus!
