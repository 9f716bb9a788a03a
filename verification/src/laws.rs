//! What holds of the program as a whole.

use vstd::prelude::*;

use crate::config::{AvailableModel, ConfigModel, KeymapModel};
use crate::keys::{self, KeyEvent};
use crate::midi_message;
use crate::midi_update::{self, Link, LinkAction, LinkEvent, Reaction, Request};
use crate::panel::{self, EffectModel, PanelEvent, PanelModel};
use crate::settings::{self, InstalledModel, MyPortInfo, PortChoice, PortModel};
use crate::text;

verus! {

/// While output is switched off, no message leads to anything.
pub proof fn law_muted(message: Seq<u8>)
    ensures
        midi_update::reaction_to_message(false, message) == Some(Reaction::Muted),
{
}

/// While output is on, a struck note is pressed with its velocity, an ended one is
/// released, and the two pedals are passed on with their values.
pub proof fn law_notes_and_pedals(message: Seq<u8>)
    requires
        message.len() >= 3,
    ensures
        ({
            let reaction = midi_update::reaction_to_message(true, message);
            let status = message[0] & 0xf0;
            let (note, velocity) = (midi_message::data(message[1]), midi_message::data(message[2]));
            let (control, value) = (note, velocity);
            &&& status == 0x90 && velocity > 0 ==> reaction == Some(
                Reaction::Ask(Request::PressNote { note, velocity }),
            )
            &&& status == 0x80 ==> reaction == Some(Reaction::Ask(Request::ReleaseNote { note }))
            &&& status == 0xb0 && control == 64 ==> reaction == Some(
                Reaction::Ask(Request::ProcessSustain { value }),
            )
            &&& status == 0xb0 && control == 66 ==> reaction == Some(
                Reaction::Ask(Request::ProcessSostenuto { value }),
            )
        }),
{
    let first = message[0];
    assert(first == 0xf0 ==> first & 0xf0 == 0xf0) by (bit_vector);
}

/// A message that starts a note with velocity 0 is answered just as one that
/// ends the note, whatever the release velocity and the channels are.
pub proof fn law_zero_velocity_ends_the_note(output: bool, on: Seq<u8>, off: Seq<u8>)
    requires
        on.len() >= 3,
        off.len() >= 3,
        on[0] & 0xf0 == 0x90,
        off[0] & 0xf0 == 0x80,
        midi_message::data(on[1]) == midi_message::data(off[1]),
        midi_message::data(on[2]) == 0,
    ensures
        midi_update::reaction_to_message(output, on) == midi_update::reaction_to_message(output, off),
{
    let (a, b) = (on[0], off[0]);
    assert(a & 0xf0 == 0x90 ==> a != 0xf0) by (bit_vector);
    assert(b & 0xf0 == 0x80 ==> b != 0xf0) by (bit_vector);
}

/// What is asked of the output method fits in seven bits, and a note is pressed
/// with a velocity above 0 only.
pub proof fn law_requests_fit(output: bool, message: Seq<u8>)
    ensures
        midi_update::reaction_to_message(output, message) matches Some(Reaction::Ask(request)) ==> (
        match request {
            Request::PressNote { note, velocity } => note < 128 && 0 < velocity < 128,
            Request::ReleaseNote { note } => note < 128,
            Request::ProcessSustain { value } => value < 128,
            Request::ProcessSostenuto { value } => value < 128,
        }),
{
    let (a, b) = (message[1], message[2]);
    assert(a & 0x7f < 128) by (bit_vector);
    assert(b & 0x7f < 128) by (bit_vector);
}

/// The channel of a channel message makes no difference.
pub proof fn law_channel_is_ignored(output: bool, message: Seq<u8>, other: Seq<u8>)
    requires
        message.len() > 0,
        other.len() > 0,
        message[0] & 0xf0 == other[0] & 0xf0,
        message[0] & 0xf0 != 0xf0,
        message.drop_first() == other.drop_first(),
    ensures
        midi_update::reaction_to_message(output, message) == midi_update::reaction_to_message(
            output,
            other,
        ),
{
    let (a, b) = (message[0], other[0]);
    assert(a & 0xf0 != 0xf0 ==> a != 0xf0) by (bit_vector);
    assert(b & 0xf0 != 0xf0 ==> b != 0xf0) by (bit_vector);
    assert(message.len() == message.drop_first().len() + 1);
    assert(other.len() == other.drop_first().len() + 1);
    if message.len() >= 2 {
        assert(message[1] == message.drop_first()[0]);
        assert(other[1] == other.drop_first()[0]);
    }
    if message.len() >= 3 {
        assert(message[2] == message.drop_first()[1]);
        assert(other[2] == other.drop_first()[1]);
    }
}

/// The names as a set of texts.
pub open spec fn texts(names: Seq<&str>) -> Set<Seq<char>> {
    Set::new(|text: Seq<char>| exists|i: int| 0 <= i < names.len() && #[trigger] names[i]@ == text)
}

/// Releasing all keys leaves just those down that have none of the names.
pub proof fn law_release_all(names: Seq<&str>, events: Seq<KeyEvent>, held: Set<Seq<char>>)
    requires
        keys::releases_each(names, events),
    ensures
        keys::held_after(held, events) == held.difference(texts(names)),
    decreases names.len(),
{
    if names.len() == 0 {
        assert(held.difference(texts(names)) =~= held);
    } else {
        let rest = names.drop_last();
        assert forall|i: int| 0 <= i < rest.len() implies (#[trigger] events.drop_last()[i] matches KeyEvent::Release(key)
            && key@ == rest[i]@) by {
            assert(events[i] is Release);
        }
        law_release_all(rest, events.drop_last(), held);
        assert(events[names.len() - 1] is Release);
        assert forall|text: Seq<char>| texts(names).contains(text) <==> (texts(rest).contains(text)
            || text == names.last()@) by {
            if texts(names).contains(text) {
                let i = choose|i: int| 0 <= i < names.len() && #[trigger] names[i]@ == text;
                if i < rest.len() {
                    assert(rest[i]@ == text);
                }
            }
            if texts(rest).contains(text) {
                let i = choose|i: int| 0 <= i < rest.len() && #[trigger] rest[i]@ == text;
                assert(names[i]@ == text);
            }
            if text == names.last()@ {
                assert(names[names.len() - 1]@ == text);
            }
        }
        assert(keys::held_after(held, events) =~= held.difference(texts(names)));
    }
}

/// The first connection can be made.
pub proof fn law_first_connection(names: Seq<&str>, actions: Seq<LinkAction>)
    requires
        midi_update::answers(LinkEvent::Started, names, actions),
    ensures
        midi_update::link_after(Link::Unconnected, actions) == Some(Link::Connected),
{
    reveal_with_fuel(midi_update::link_after, 2);
    assert(actions.drop_last().len() == 0);
}

/// When settings change, a connection is closed before the next one is made, and
/// before it is closed no key of the table is down any more.
pub proof fn law_reconnection(names: Seq<&str>, actions: Seq<LinkAction>, held: Set<Seq<char>>)
    requires
        midi_update::answers(LinkEvent::SettingsChanged, names, actions),
        held.subset_of(texts(names)),
    ensures
        midi_update::link_after(Link::Connected, actions) == Some(Link::Connected),
        forall|i: int| 0 <= i < actions.len() && actions[i] is Close ==> i > 0,
        actions[0] matches LinkAction::Write(events) && keys::held_after(held, events@) == Set::<
            Seq<char>,
        >::empty(),
{
    reveal_with_fuel(midi_update::link_after, 5);
    let events = actions[0]->Write_0;
    law_release_all(names, events@, held);
    assert(held.difference(texts(names)) =~= Set::empty());
    let three = actions.drop_last();
    let two = three.drop_last();
    let one = two.drop_last();
    assert(one.drop_last().len() == 0);
    assert(one.last() == actions[0]);
    assert(two.last() == actions[1]);
    assert(three.last() == actions[2]);
}

/// Actions that follow others act on the connection that those left.
proof fn lemma_link_after_more(link: Link, actions: Seq<LinkAction>, more: Seq<LinkAction>)
    ensures
        midi_update::link_after(link, actions + more) == (match midi_update::link_after(
            link,
            actions,
        ) {
            Some(between) => midi_update::link_after(between, more),
            None => None,
        }),
    decreases more.len(),
{
    if more.len() == 0 {
        assert(actions + more =~= actions);
    } else {
        assert((actions + more).drop_last() =~= actions + more.drop_last());
        lemma_link_after_more(link, actions, more.drop_last());
    }
}

/// However often settings change after the start, every action can be carried
/// out in its turn, and there is one connection at the end.
pub proof fn law_link_stays_connected(
    names: Seq<&str>,
    start: Seq<LinkAction>,
    changes: Seq<Seq<LinkAction>>,
)
    requires
        midi_update::answers(LinkEvent::Started, names, start),
        forall|i: int|
            0 <= i < changes.len() ==> midi_update::answers(
                LinkEvent::SettingsChanged,
                names,
                #[trigger] changes[i],
            ),
    ensures
        midi_update::link_after(Link::Unconnected, start + changes.flatten()) == Some(Link::Connected),
{
    law_first_connection(names, start);
    lemma_changes_stay_connected(names, changes);
    lemma_link_after_more(Link::Unconnected, start, changes.flatten());
}

/// Changed settings leave a connection connected.
proof fn lemma_changes_stay_connected(names: Seq<&str>, changes: Seq<Seq<LinkAction>>)
    requires
        forall|i: int|
            0 <= i < changes.len() ==> midi_update::answers(
                LinkEvent::SettingsChanged,
                names,
                #[trigger] changes[i],
            ),
    ensures
        midi_update::link_after(Link::Connected, changes.flatten()) == Some(Link::Connected),
    decreases changes.len(),
{
    if changes.len() > 0 {
        let rest = changes.drop_first();
        assert forall|i: int| 0 <= i < rest.len() implies midi_update::answers(
            LinkEvent::SettingsChanged,
            names,
            #[trigger] rest[i],
        ) by {
            assert(rest[i] == changes[i + 1]);
        }
        lemma_changes_stay_connected(names, rest);
        law_reconnection(names, changes[0], Set::empty());
        lemma_link_after_more(Link::Connected, changes[0], rest.flatten());
        assert(changes.flatten() == changes[0] + rest.flatten());
    }
}

/// Whatever is done in the panel, the method in use stays the preferred one,
/// and there is a port to connect to.
pub proof fn law_panel_stays_consistent<P>(panel: PanelModel<P>, events: Seq<PanelEvent<P>>)
    requires
        panel.consistent(),
    ensures
        panel.after_all(events).consistent(),
    decreases events.len(),
{
    if events.len() > 0 {
        law_panel_stays_consistent(panel, events.drop_last());
    }
}

/// Effects that follow others act on what those left.
proof fn lemma_disk_after_more(disk: ConfigModel, effects: Seq<EffectModel>, more: Seq<EffectModel>)
    ensures
        panel::disk_after(disk, effects + more) == panel::disk_after(
            panel::disk_after(disk, effects),
            more,
        ),
    decreases more.len(),
{
    if more.len() == 0 {
        assert(effects + more =~= effects);
    } else {
        assert((effects + more).drop_last() =~= effects + more.drop_last());
        lemma_disk_after_more(disk, effects, more.drop_last());
    }
}

/// After one event the configuration on the disk is the one in the panel.
proof fn lemma_disk_after_event<P>(panel: PanelModel<P>, event: PanelEvent<P>)
    ensures
        panel::disk_after(panel.config, panel.effects(event)) == panel.after(event).config,
{
    let effects = panel.effects(event);
    if event is ClickVelocity || event is ClickOutput {
        let rest = effects.drop_last();
        assert(effects.last() is ResetMethod);
        assert(rest.last() is Reconnect);
        assert(rest.drop_last().len() == 0);
        assert(panel::disk_after(panel.config, rest.drop_last()) == panel.config);
        assert(panel::disk_after(panel.config, rest) == panel.config);
    } else if effects.len() > 0 {
        assert(effects.last() == EffectModel::Store(panel.after(event).config));
    }
}

/// The configuration on the disk is always the one in the panel.
pub proof fn law_disk_is_up_to_date<P>(panel: PanelModel<P>, events: Seq<PanelEvent<P>>)
    ensures
        panel::disk_after(panel.config, panel.all_effects(events)) == panel.after_all(events).config,
    decreases events.len(),
{
    if events.len() > 0 {
        let before = panel.after_all(events.drop_last());
        let effects = before.effects(events.last());
        law_disk_is_up_to_date(panel, events.drop_last());
        lemma_disk_after_more(panel.config, panel.all_effects(events.drop_last()), effects);
        lemma_disk_after_event(before, events.last());
    }
}

/// Effects that follow others act on what those left.
proof fn lemma_installed_after_more(
    installed: InstalledModel,
    effects: Seq<EffectModel>,
    more: Seq<EffectModel>,
)
    ensures
        panel::installed_after(installed, effects + more) == panel::installed_after(
            panel::installed_after(installed, effects),
            more,
        ),
    decreases more.len(),
{
    if more.len() == 0 {
        assert(effects + more =~= effects);
    } else {
        assert((effects + more).drop_last() =~= effects + more.drop_last());
        lemma_installed_after_more(installed, effects, more.drop_last());
    }
}

/// An effect that installs nothing leaves the installed method as it is.
proof fn lemma_installed_after_other(installed: InstalledModel, effects: Seq<EffectModel>)
    requires
        effects.len() > 0,
        !(effects.last() is Install),
    ensures
        panel::installed_after(installed, effects) == panel::installed_after(
            installed,
            effects.drop_last(),
        ),
{
}

/// After one event the installed method is the one in the settings.
proof fn lemma_installed_after_event<P>(panel: PanelModel<P>, event: PanelEvent<P>)
    ensures
        panel::installed_after(panel.settings.output_method, panel.effects(event)) == panel.after(
            event,
        ).settings.output_method,
{
    let method = panel.settings.output_method;
    let effects = panel.effects(event);
    if effects.len() > 0 {
        // The last effect of every event stores or resets.
        lemma_installed_after_other(method, effects);
        let rest = effects.drop_last();
        if event is ChoosePort || event is ClickVelocity || event is ClickOutput {
            lemma_installed_after_other(method, rest);
            assert(rest.drop_last().len() == 0);
        } else if event is ChoosePv {
            lemma_installed_after_other(method, rest);
            assert(rest.drop_last().last() == EffectModel::Install(InstalledModel::PV));
        } else {
            assert(rest.last() == EffectModel::Install(panel.after(event).settings.output_method));
        }
    }
}

/// The output method that is installed is always the one in the settings.
pub proof fn law_installed_method_is_up_to_date<P>(panel: PanelModel<P>, events: Seq<PanelEvent<P>>)
    ensures
        panel::installed_after(panel.settings.output_method, panel.all_effects(events))
            == panel.after_all(events).settings.output_method,
    decreases events.len(),
{
    if events.len() > 0 {
        let before = panel.after_all(events.drop_last());
        let effects = before.effects(events.last());
        law_installed_method_is_up_to_date(panel, events.drop_last());
        lemma_installed_after_more(
            panel.settings.output_method,
            panel.all_effects(events.drop_last()),
            effects,
        );
        lemma_installed_after_event(before, events.last());
    }
}

/// A program that starts on the configuration of a first run has the standard
/// keymap in the editor and in use, and listens to the first port.
pub proof fn law_first_run<P: Clone>(
    standard: KeymapModel,
    opened: PanelModel<P>,
    first: PortModel<P>,
    ports: Seq<MyPortInfo<P>>,
    choice: PortChoice,
)
    requires
        panel::opens_on(
            opened,
            (ConfigModel {
                preferred_port_name: None,
                preferred_output_method: AvailableModel::Generic(Some(standard)),
                saved_generic_keymap: standard,
            }),
            first,
            ports,
            choice,
        ),
    ensures
        opened.settings.output_method == InstalledModel::Generic(standard),
        opened.edited_keymap() == standard,
        opened.settings.port == Some(first),
        choice == PortChoice::NoPreference,
{
}

/// What is on the disk after any use of the panel can be started on again. The
/// program then has the output method that it had, and both switches are on.
pub proof fn law_method_survives_restart<P: Clone>(
    panel: PanelModel<P>,
    events: Seq<PanelEvent<P>>,
    reopened: PanelModel<P>,
    first: PortModel<P>,
    ports: Seq<MyPortInfo<P>>,
    choice: PortChoice,
)
    requires
        panel.consistent(),
        panel::opens_on(
            reopened,
            panel::disk_after(panel.config, panel.all_effects(events)),
            first,
            ports,
            choice,
        ),
    ensures
        panel::disk_after(
            panel.config,
            panel.all_effects(events),
        ).preferred_output_method.complete(),
        reopened.settings.output_method == panel.after_all(events).settings.output_method,
        reopened.settings.output,
        reopened.settings.pv_velocity,
{
    law_disk_is_up_to_date(panel, events);
    law_panel_stays_consistent(panel, events);
}

/// No later event but the choice of another port changes which port is
/// preferred and listened to.
proof fn lemma_port_stays<P>(panel: PanelModel<P>, events: Seq<PanelEvent<P>>)
    requires
        forall|i: int| 0 <= i < events.len() ==> !(#[trigger] events[i] is ChoosePort),
    ensures
        panel.after_all(events).settings.port == panel.settings.port,
        panel.after_all(events).config.preferred_port_name == panel.config.preferred_port_name,
    decreases events.len(),
{
    if events.len() > 0 {
        let rest = events.drop_last();
        assert forall|i: int| 0 <= i < rest.len() implies !(#[trigger] rest[i] is ChoosePort) by {
            assert(rest[i] == events[i]);
        }
        lemma_port_stays(panel, rest);
        assert(!(events[events.len() - 1] is ChoosePort));
    }
}

/// A port that was chosen is listened to until another is chosen. After a restart
/// the first port of its name is listened to; where no port has that name, the
/// first port of all.
pub proof fn law_port_survives_restart<P: Clone>(
    panel: PanelModel<P>,
    port: MyPortInfo<P>,
    events: Seq<PanelEvent<P>>,
    reopened: PanelModel<P>,
    first: PortModel<P>,
    ports: Seq<MyPortInfo<P>>,
    choice: PortChoice,
)
    requires
        forall|i: int| 0 <= i < events.len() ==> !(#[trigger] events[i] is ChoosePort),
        panel::opens_on(
            reopened,
            panel::disk_after(
                panel.config,
                panel.all_effects(seq![PanelEvent::ChoosePort(port)] + events),
            ),
            first,
            ports,
            choice,
        ),
    ensures
        panel.after_all(seq![PanelEvent::ChoosePort(port)] + events).settings.port == Some(port@),
        settings::has_named(ports, port@.name) ==> {
            &&& choice == PortChoice::Preferred
            &&& exists|i: int| #[trigger]
                settings::first_named(ports, port@.name, i) && (reopened.settings.port matches Some(
                    listened,
                ) && settings::is_copy(ports[i]@, listened))
        },
        !settings::has_named(ports, port@.name) ==> {
            &&& choice == PortChoice::NotFound
            &&& reopened.settings.port == Some(first)
        },
{
    let chosen = seq![PanelEvent::ChoosePort(port)];
    law_disk_is_up_to_date(panel, chosen + events);
    lemma_after_more(panel, chosen, events);
    assert(chosen.drop_last().len() == 0);
    assert(panel.after_all(chosen.drop_last()) == panel);
    assert(panel.after_all(chosen) == panel.after(PanelEvent::ChoosePort(port)));
    lemma_port_stays(panel.after_all(chosen), events);
}

/// Events that follow others act on the panel that those left.
proof fn lemma_after_more<P>(
    panel: PanelModel<P>,
    events: Seq<PanelEvent<P>>,
    more: Seq<PanelEvent<P>>,
)
    ensures
        panel.after_all(events + more) == panel.after_all(events).after_all(more),
    decreases more.len(),
{
    if more.len() == 0 {
        assert(events + more =~= events);
    } else {
        assert((events + more).drop_last() =~= events + more.drop_last());
        lemma_after_more(panel, events, more.drop_last());
    }
}

/// `event` edits the keymap and is accepted.
pub open spec fn is_accepted_edit<P>(event: PanelEvent<P>) -> bool {
    match event {
        PanelEvent::EditKeymap(text) => panel::is_keymap_text(text@),
        PanelEvent::ResetKeymap(_) => true,
        PanelEvent::EditSustain { known, .. } => known,
        _ => false,
    }
}

/// `event` edits the keymap and is not accepted.
pub open spec fn is_rejected_edit<P>(event: PanelEvent<P>) -> bool {
    match event {
        PanelEvent::EditKeymap(text) => !panel::is_keymap_text(text@),
        PanelEvent::EditSustain { known, .. } => !known,
        _ => false,
    }
}

/// An accepted edit is in use at once, and a restart brings it back into the
/// editor and into use.
pub proof fn law_accepted_edit_survives_restart<P: Clone>(
    panel: PanelModel<P>,
    event: PanelEvent<P>,
    reopened: PanelModel<P>,
    first: PortModel<P>,
    ports: Seq<MyPortInfo<P>>,
    choice: PortChoice,
)
    requires
        is_accepted_edit(event),
        panel::opens_on(
            reopened,
            panel::disk_after(panel.config, panel.effects(event)),
            first,
            ports,
            choice,
        ),
    ensures
        panel.after(event).settings.output_method == InstalledModel::Generic(
            panel.after(event).edited_keymap(),
        ),
        reopened.settings.output_method == panel.after(event).settings.output_method,
        reopened.edited_keymap() == panel.after(event).edited_keymap(),
{
    lemma_disk_after_event(panel, event);
}

/// A rejected edit changes the text in the editor and its mark alone: settings
/// and configuration stay, and nothing is done outside the panel.
pub proof fn law_rejected_edit_changes_nothing_else<P>(panel: PanelModel<P>, event: PanelEvent<P>)
    requires
        is_rejected_edit(event),
    ensures
        panel.after(event).settings == panel.settings,
        panel.after(event).config == panel.config,
        panel.effects(event) == Seq::<EffectModel>::empty(),
        event is EditKeymap ==> !panel.after(event).keymap_valid && panel.after(event).sustain_text
            == panel.sustain_text && panel.after(event).sustain_valid == panel.sustain_valid,
        event is EditSustain ==> !panel.after(event).sustain_valid && panel.after(event).keymap_text
            == panel.keymap_text && panel.after(event).keymap_valid == panel.keymap_valid,
{
}

/// Where the mark on the notes in the editor was right, it stays right, if the
/// notes of the standard keymap are complete.
pub proof fn law_keymap_mark_stays_right<P>(panel: PanelModel<P>, event: PanelEvent<P>)
    requires
        panel.keymap_valid == panel::is_keymap_text(panel.keymap_text),
        event matches PanelEvent::ResetKeymap(notes) ==> panel::is_keymap_text(
            text::lossy_text(notes@),
        ),
    ensures
        panel.after(event).keymap_valid == panel::is_keymap_text(panel.after(event).keymap_text),
{
}

/// Where the saved notes were complete they stay complete, if the notes of the
/// standard keymap are, and if a sustain key is accepted only while the notes in
/// the editor are.
pub proof fn law_saved_notes_stay_complete<P>(panel: PanelModel<P>, event: PanelEvent<P>)
    requires
        panel::is_keymap_text(panel.config.saved_generic_keymap.keys),
        event matches PanelEvent::ResetKeymap(notes) ==> panel::is_keymap_text(
            text::lossy_text(notes@),
        ),
        event matches PanelEvent::EditSustain { known, .. } ==> known ==> panel::is_keymap_text(
            panel.keymap_text,
        ),
    ensures
        panel::is_keymap_text(panel.after(event).config.saved_generic_keymap.keys),
{
}

/// Every event but a rejected edit and a reset of the keymap renews the
/// connection, first of all and once; those two do not renew it.
pub proof fn law_reconnects_once<P>(panel: PanelModel<P>, event: PanelEvent<P>)
    ensures
        !is_rejected_edit(event) && !(event is ResetKeymap) ==> panel.effects(event).len() > 0
            && panel.effects(event)[0] is Reconnect,
        forall|i: int|
            0 < i < panel.effects(event).len() ==> !(#[trigger] panel.effects(event)[i] is Reconnect),
        is_rejected_edit(event) || event is ResetKeymap ==> forall|i: int|
            0 <= i < panel.effects(event).len() ==> !(#[trigger] panel.effects(event)[i] is Reconnect),
{
}

/// Choosing the piano visualizer's method and clicking its switch both have the
/// method told what the switch then shows.
pub proof fn law_velocity_is_told<P>(panel: PanelModel<P>, event: PanelEvent<P>)
    requires
        event is ChoosePv || event is ClickVelocity,
    ensures
        panel.effects(event).contains(
            EffectModel::ResetMethod(
                panel::velocity_info(panel.after(event).settings.pv_velocity),
            ),
        ),
{
    let effects = panel.effects(event);
    let told = EffectModel::ResetMethod(
        panel::velocity_info(panel.after(event).settings.pv_velocity),
    );
    if event is ChoosePv {
        assert(effects[2] == told);
    } else {
        assert(effects[1] == told);
    }
}

} // verus!
