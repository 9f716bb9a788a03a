//! What each control of the settings panel does, said of the panel before and
//! after and of the effects that are returned.

use vstd::prelude::*;

use crate::config::{AvailableOutputMethod, SavedConfig};
use crate::laws;
use crate::midi_update::{handle_message, Reaction, Request};
use crate::panel::{
    self, shows_keymap, shows_velocity, velocity_info_text, Effect, Panel, PanelEvent, PanelModel,
};
use crate::settings::{InstalledMethod, MyPortInfo, PortChoice};
use crate::start_laws::{self, same_choice, same_config, same_keymap, same_method, same_target, same_text};

verus! {

/// Both switches stand as they did.
pub open spec fn same_switches<P>(a: Panel<P>, b: Panel<P>) -> bool {
    a.settings.output == b.settings.output && a.settings.pv_velocity == b.settings.pv_velocity
}

/// The port that is listened to and the one that is preferred are as they were.
pub open spec fn same_ports<P>(a: Panel<P>, b: Panel<P>) -> bool {
    &&& same_target(a.settings.port, b.settings.port)
    &&& same_text(a.config.preferred_port_name, b.config.preferred_port_name)
}

/// The method in use and the one that is preferred are as they were.
pub open spec fn same_methods<P>(a: Panel<P>, b: Panel<P>) -> bool {
    &&& same_method(a.settings.output_method, b.settings.output_method)
    &&& same_choice(a.config.preferred_output_method, b.config.preferred_output_method)
}

/// The saved keymap is as it was.
pub open spec fn same_saved<P>(a: Panel<P>, b: Panel<P>) -> bool {
    same_keymap(a.config.saved_generic_keymap, b.config.saved_generic_keymap)
}

/// The notes in the editor and their mark are as they were.
pub open spec fn same_notes<P>(a: Panel<P>, b: Panel<P>) -> bool {
    a.keymap_text@ == b.keymap_text@ && a.keymap_valid == b.keymap_valid
}

/// The sustain key in the editor and its mark are as they were.
pub open spec fn same_sustain<P>(a: Panel<P>, b: Panel<P>) -> bool {
    a.sustain_text@ == b.sustain_text@ && a.sustain_valid == b.sustain_valid
}

/// The plain layout with this keymap is in use and preferred.
pub open spec fn uses_keymap<P>(panel: Panel<P>, keys: Seq<char>, sustain: Seq<char>) -> bool {
    &&& panel.settings.output_method matches InstalledMethod::Generic(used) && used.keys@ == keys
        && used.sustain@ == sustain
    &&& panel.config.preferred_output_method matches AvailableOutputMethod::Generic(Some(preferred))
        && preferred.keys@ == keys && preferred.sustain@ == sustain
}

/// This keymap is saved.
pub open spec fn has_saved<P>(panel: Panel<P>, keys: Seq<char>, sustain: Seq<char>) -> bool {
    &&& panel.config.saved_generic_keymap.keys@ == keys
    &&& panel.config.saved_generic_keymap.sustain@ == sustain
}

/// `effect` writes the whole configuration of `panel` to the disk.
pub open spec fn stores<P>(effect: Effect, panel: Panel<P>) -> bool {
    effect matches Effect::Store(config) && same_config(config, panel.config)
}

/// `effect` installs the method of `panel`.
pub open spec fn installs<P>(effect: Effect, panel: Panel<P>) -> bool {
    effect matches Effect::Install(method) && same_method(method, panel.settings.output_method)
}

/// `effect` resets the method with this information.
pub open spec fn tells(effect: Effect, info: Seq<char>) -> bool {
    effect matches Effect::ResetMethod(told) && told@ == info
}

/// What is said of the models of effects holds of the effects.
proof fn lemma_effects<P>(
    before: PanelModel<P>,
    after: Panel<P>,
    event: PanelEvent<P>,
    effects: Seq<Effect>,
)
    requires
        panel::effect_models(effects) == before.effects(event),
        after@ == before.after(event),
    ensures
        effects.len() == before.effects(event).len(),
        forall|i: int|
            0 <= i < effects.len() ==> (#[trigger] effects[i])@ == before.effects(event)[i],
{
    assert forall|i: int| 0 <= i < effects.len() implies (#[trigger] effects[i])@ == before.effects(
        event,
    )[i] by {
        assert(panel::effect_models(effects)[i] == effects[i]@);
    }
}

/// A port that is picked is listened to from then on and becomes the preferred one,
/// by its name. The connection is renewed, and the configuration stored. Nothing
/// else changes.
pub proof fn law_choose_port<P>(
    panel: &mut Panel<P>,
    port: MyPortInfo<P>,
    effects: Vec<Effect>,
)
    requires
        call_ensures(Panel::<P>::handle, (panel, PanelEvent::ChoosePort(port)), effects),
    ensures
        final(panel).settings.port matches Some(target) && target.port == port.port && target.name@
            == port.name@,
        final(panel).config.preferred_port_name matches Some(name) && name@ == port.name@,
        same_switches(*final(panel), *old(panel)),
        same_methods(*final(panel), *old(panel)),
        same_saved(*final(panel), *old(panel)),
        same_notes(*final(panel), *old(panel)),
        same_sustain(*final(panel), *old(panel)),
        effects@.len() == 2,
        effects@[0] is Reconnect,
        stores(effects@[1], *final(panel)),
{
    lemma_effects(old(panel)@, *final(panel), PanelEvent::ChoosePort(port), effects@);
}

/// Picking the plain layout puts the keymap in use that stands in the editor, marked
/// wrong or not, and makes it the preferred method. What is saved stays.
pub proof fn law_choose_generic<P>(panel: &mut Panel<P>, effects: Vec<Effect>)
    requires
        call_ensures(Panel::<P>::handle, (panel, PanelEvent::ChooseGeneric), effects),
    ensures
        uses_keymap(*final(panel), old(panel).keymap_text@, old(panel).sustain_text@),
        same_switches(*final(panel), *old(panel)),
        same_ports(*final(panel), *old(panel)),
        same_saved(*final(panel), *old(panel)),
        same_notes(*final(panel), *old(panel)),
        same_sustain(*final(panel), *old(panel)),
        effects@.len() == 3,
        effects@[0] is Reconnect,
        installs(effects@[1], *final(panel)),
        stores(effects@[2], *final(panel)),
{
    lemma_effects(old(panel)@, *final(panel), PanelEvent::ChooseGeneric, effects@);
}

/// Picking the piano visualizer's method puts it in use and makes it the preferred
/// one. It is told what the switch for velocity shows once it is installed.
pub proof fn law_choose_pv<P>(panel: &mut Panel<P>, effects: Vec<Effect>)
    requires
        call_ensures(Panel::<P>::handle, (panel, PanelEvent::ChoosePv), effects),
    ensures
        final(panel).settings.output_method is PV,
        final(panel).config.preferred_output_method is PV,
        same_switches(*final(panel), *old(panel)),
        same_ports(*final(panel), *old(panel)),
        same_saved(*final(panel), *old(panel)),
        same_notes(*final(panel), *old(panel)),
        same_sustain(*final(panel), *old(panel)),
        effects@.len() == 4,
        effects@[0] is Reconnect,
        installs(effects@[1], *final(panel)),
        old(panel).settings.pv_velocity ==> tells(effects@[2], "velocity-on"@),
        !old(panel).settings.pv_velocity ==> tells(effects@[2], "velocity-off"@),
        stores(effects@[3], *final(panel)),
{
    lemma_effects(old(panel)@, *final(panel), PanelEvent::ChoosePv, effects@);
}

/// Picking the piano rooms' method puts it in use and makes it the preferred one.
pub proof fn law_choose_piano_rooms<P>(panel: &mut Panel<P>, effects: Vec<Effect>)
    requires
        call_ensures(Panel::<P>::handle, (panel, PanelEvent::ChoosePianoRooms), effects),
    ensures
        final(panel).settings.output_method is PianoRooms,
        final(panel).config.preferred_output_method is PianoRooms,
        same_switches(*final(panel), *old(panel)),
        same_ports(*final(panel), *old(panel)),
        same_saved(*final(panel), *old(panel)),
        same_notes(*final(panel), *old(panel)),
        same_sustain(*final(panel), *old(panel)),
        effects@.len() == 3,
        effects@[0] is Reconnect,
        installs(effects@[1], *final(panel)),
        stores(effects@[2], *final(panel)),
{
    lemma_effects(old(panel)@, *final(panel), PanelEvent::ChoosePianoRooms, effects@);
}

/// After a click on the switch for velocity, velocity is in use just if the switch
/// shows so, whatever it showed before, and the method is told. Nothing else changes,
/// and nothing is stored.
pub proof fn law_velocity_switch<P>(panel: &mut Panel<P>, on: bool, effects: Vec<Effect>)
    requires
        call_ensures(Panel::<P>::handle, (panel, PanelEvent::ClickVelocity(on)), effects),
    ensures
        final(panel).settings.pv_velocity == on,
        final(panel).settings.output == old(panel).settings.output,
        same_ports(*final(panel), *old(panel)),
        same_methods(*final(panel), *old(panel)),
        same_saved(*final(panel), *old(panel)),
        same_notes(*final(panel), *old(panel)),
        same_sustain(*final(panel), *old(panel)),
        effects@.len() == 2,
        effects@[0] is Reconnect,
        on ==> tells(effects@[1], "velocity-on"@),
        !on ==> tells(effects@[1], "velocity-off"@),
{
    lemma_effects(old(panel)@, *final(panel), PanelEvent::ClickVelocity(on), effects@);
}

/// After a click on the switch for output, output is on just if the switch shows so,
/// whatever it showed before, and the method is reset. Nothing else changes, and
/// nothing is stored.
pub proof fn law_output_switch<P>(panel: &mut Panel<P>, on: bool, effects: Vec<Effect>)
    requires
        call_ensures(Panel::<P>::handle, (panel, PanelEvent::ClickOutput(on)), effects),
    ensures
        final(panel).settings.output == on,
        final(panel).settings.pv_velocity == old(panel).settings.pv_velocity,
        same_ports(*final(panel), *old(panel)),
        same_methods(*final(panel), *old(panel)),
        same_saved(*final(panel), *old(panel)),
        same_notes(*final(panel), *old(panel)),
        same_sustain(*final(panel), *old(panel)),
        effects@.len() == 2,
        effects@[0] is Reconnect,
        tells(effects@[1], ""@),
{
    lemma_effects(old(panel)@, *final(panel), PanelEvent::ClickOutput(on), effects@);
}

/// A note that is struck after a click on the switch for output is pressed if the
/// switch shows that output is on, and else leads to nothing.
pub proof fn law_output_switch_and_note<P>(
    panel: &mut Panel<P>,
    on: bool,
    effects: Vec<Effect>,
    message: &[u8],
    reaction: Option<Reaction>,
)
    requires
        call_ensures(Panel::<P>::handle, (panel, PanelEvent::ClickOutput(on)), effects),
        call_ensures(handle_message, (final(panel).settings.output, message), reaction),
        message@.len() >= 3,
        0x90 <= message@[0] <= 0x9f,
        message@[2] % 128 > 0,
    ensures
        on ==> reaction == Some(
            Reaction::Ask(
                Request::PressNote { note: message@[1] % 128, velocity: message@[2] % 128 },
            ),
        ),
        !on ==> reaction == Some(Reaction::Muted),
{
    crate::message_laws::law_press_note(
        final(panel).settings.output,
        message,
        reaction,
        message@[1] % 128,
        message@[2] % 128,
    );
    crate::message_laws::law_muted_or_unreadable(final(panel).settings.output, message, reaction);
}

/// Notes are accepted just if they take 61 bytes in UTF-8. They stand in the editor
/// either way, with the mark that goes with it. Accepted notes are, together with the
/// sustain key in the editor, in use, preferred and saved at once.
pub proof fn law_edit_keymap<P>(panel: &mut Panel<P>, text: String, effects: Vec<Effect>)
    requires
        call_ensures(Panel::<P>::handle, (panel, PanelEvent::EditKeymap(text)), effects),
    ensures
        final(panel).keymap_text@ == text@,
        final(panel).keymap_valid == (vstd::utf8::encode_utf8(text@).len() == 61),
        same_sustain(*final(panel), *old(panel)),
        same_switches(*final(panel), *old(panel)),
        same_ports(*final(panel), *old(panel)),
        vstd::utf8::encode_utf8(text@).len() == 61 ==> {
            &&& uses_keymap(*final(panel), text@, old(panel).sustain_text@)
            &&& has_saved(*final(panel), text@, old(panel).sustain_text@)
            &&& effects@.len() == 3
            &&& effects@[0] is Reconnect
            &&& installs(effects@[1], *final(panel))
            &&& stores(effects@[2], *final(panel))
        },
        vstd::utf8::encode_utf8(text@).len() != 61 ==> {
            &&& same_methods(*final(panel), *old(panel))
            &&& same_saved(*final(panel), *old(panel))
            &&& effects@.len() == 0
        },
{
    lemma_effects(old(panel)@, *final(panel), PanelEvent::EditKeymap(text), effects@);
}

/// A sustain key is accepted just if a key of its name exists. It stands in the editor
/// either way, with the mark that goes with it. An accepted one is, together with the
/// notes in the editor, in use, preferred and saved at once.
pub proof fn law_edit_sustain<P>(
    panel: &mut Panel<P>,
    text: String,
    known: bool,
    effects: Vec<Effect>,
)
    requires
        call_ensures(Panel::<P>::handle, (panel, PanelEvent::EditSustain { text, known }), effects),
    ensures
        final(panel).sustain_text@ == text@,
        final(panel).sustain_valid == known,
        same_notes(*final(panel), *old(panel)),
        same_switches(*final(panel), *old(panel)),
        same_ports(*final(panel), *old(panel)),
        known ==> {
            &&& uses_keymap(*final(panel), old(panel).keymap_text@, text@)
            &&& has_saved(*final(panel), old(panel).keymap_text@, text@)
            &&& effects@.len() == 3
            &&& effects@[0] is Reconnect
            &&& installs(effects@[1], *final(panel))
            &&& stores(effects@[2], *final(panel))
        },
        !known ==> {
            &&& same_methods(*final(panel), *old(panel))
            &&& same_saved(*final(panel), *old(panel))
            &&& effects@.len() == 0
        },
{
    lemma_effects(old(panel)@, *final(panel), PanelEvent::EditSustain { text, known }, effects@);
}

/// Going back to the standard keymap, from any panel, leaves the given notes and the
/// sustain key "space" in the editor, unmarked, in use, preferred and saved. The method
/// is installed and the configuration stored, and the connection is not renewed.
pub proof fn law_reset_keymap<P>(panel: &mut Panel<P>, notes: String, effects: Vec<Effect>)
    requires
        call_ensures(Panel::<P>::reset_keymap, (panel, notes), effects),
    ensures
        final(panel).keymap_text@ == notes@,
        final(panel).keymap_valid,
        final(panel).sustain_text@ == "space"@,
        final(panel).sustain_valid,
        uses_keymap(*final(panel), notes@, "space"@),
        has_saved(*final(panel), notes@, "space"@),
        same_switches(*final(panel), *old(panel)),
        same_ports(*final(panel), *old(panel)),
        effects@.len() == 2,
        installs(effects@[0], *final(panel)),
        stores(effects@[1], *final(panel)),
{
    let models = panel::effect_models(effects@);
    assert(models.len() == effects@.len());
    assert(models.len() == 2);
    assert(models[0] == effects@[0]@);
    assert(models[1] == effects@[1]@);
}

/// The same of the button for it, whose notes come as bytes and are read as text: in
/// UTF-8 they stand for the characters that they encode.
pub proof fn law_reset_button<P>(panel: &mut Panel<P>, notes: Vec<u8>, effects: Vec<Effect>)
    requires
        call_ensures(Panel::<P>::handle, (panel, PanelEvent::ResetKeymap(notes)), effects),
    ensures
        final(panel).keymap_text@ == crate::text::lossy_text(notes@),
        vstd::utf8::valid_utf8(notes@) ==> final(panel).keymap_text@ == vstd::utf8::decode_utf8(
            notes@,
        ),
        final(panel).keymap_valid,
        final(panel).sustain_text@ == "space"@,
        final(panel).sustain_valid,
        uses_keymap(*final(panel), final(panel).keymap_text@, "space"@),
        has_saved(*final(panel), final(panel).keymap_text@, "space"@),
        same_switches(*final(panel), *old(panel)),
        same_ports(*final(panel), *old(panel)),
        effects@.len() == 2,
        installs(effects@[0], *final(panel)),
        stores(effects@[1], *final(panel)),
{
    lemma_effects(old(panel)@, *final(panel), PanelEvent::ResetKeymap(notes), effects@);
}

/// Two panels that are reset with the same bytes have the same keymap afterwards,
/// however different they were.
pub proof fn law_resets_agree<P>(
    one: &mut Panel<P>,
    other: &mut Panel<P>,
    notes: Vec<u8>,
    one_effects: Vec<Effect>,
    other_effects: Vec<Effect>,
)
    requires
        call_ensures(Panel::<P>::handle, (one, PanelEvent::ResetKeymap(notes)), one_effects),
        call_ensures(Panel::<P>::handle, (other, PanelEvent::ResetKeymap(notes)), other_effects),
    ensures
        same_notes(*final(one), *final(other)),
        same_sustain(*final(one), *final(other)),
        same_methods(*final(one), *final(other)),
        same_saved(*final(one), *final(other)),
{
    law_reset_button(one, notes, one_effects);
    law_reset_button(other, notes, other_effects);
}

/// The switch for velocity is shown beside the piano visualizer's method alone, and
/// the keymap editor beside the plain layout alone.
pub proof fn law_shown_controls(name: &String, velocity: bool, keymap: bool)
    requires
        call_ensures(shows_velocity, (name,), velocity),
        call_ensures(shows_keymap, (name,), keymap),
    ensures
        velocity <==> name@ == "Piano Visualizations"@,
        keymap <==> name@ == "Generic"@,
{
}

/// What the method is told about velocity.
pub proof fn law_velocity_information(on: bool, info: &'static str)
    requires
        call_ensures(velocity_info_text, (on,), info),
    ensures
        on ==> info@ == "velocity-on"@,
        !on ==> info@ == "velocity-off"@,
{
}

/// Events that are no accepted edits leave the saved keymap as it is.
proof fn lemma_saved_stays<P>(panel: PanelModel<P>, events: Seq<PanelEvent<P>>)
    requires
        forall|i: int| 0 <= i < events.len() ==> !laws::is_accepted_edit(#[trigger] events[i]),
    ensures
        panel.after_all(events).config.saved_generic_keymap == panel.config.saved_generic_keymap,
    decreases events.len(),
{
    if events.len() > 0 {
        let rest = events.drop_last();
        assert forall|i: int| 0 <= i < rest.len() implies !laws::is_accepted_edit(
            #[trigger] rest[i],
        ) by {
            assert(rest[i] == events[i]);
        }
        lemma_saved_stays(panel, rest);
        assert(!laws::is_accepted_edit(events[events.len() - 1]));
    }
}

/// A keymap that was in the editor at an accepted edit is in the editor after a restart,
/// whatever else was done in between that is no accepted edit: also where another
/// method was picked.
pub proof fn law_saved_keymap_survives_other_choices<P: Clone>(
    panel: &mut Panel<P>,
    edit: PanelEvent<P>,
    effects: Vec<Effect>,
    events: Seq<PanelEvent<P>>,
    disk: SavedConfig,
    first: MyPortInfo<P>,
    ports: &Vec<MyPortInfo<P>>,
    opened: (Panel<P>, PortChoice),
)
    requires
        laws::is_accepted_edit(edit),
        call_ensures(Panel::<P>::handle, (panel, edit), effects),
        forall|i: int| 0 <= i < events.len() ==> !laws::is_accepted_edit(#[trigger] events[i]),
        disk@ == panel::disk_after(final(panel).config@, final(panel)@.all_effects(events)),
        !(disk.preferred_output_method matches AvailableOutputMethod::Generic(None)),
        call_ensures(Panel::<P>::open, (disk, first, ports), opened),
    ensures
        opened.0.keymap_text@ == final(panel).keymap_text@,
        opened.0.sustain_text@ == final(panel).sustain_text@,
{
    laws::law_disk_is_up_to_date(final(panel)@, events);
    lemma_saved_stays(final(panel)@, events);
    start_laws::law_opened_panel(disk, first, ports, opened);
}

} // verus!
