//! The settings panel: what each of its controls does to the settings, to the
//! saved configuration, and to the rest of the program.

use vstd::prelude::*;

use crate::config::{AvailableOutputMethod, ConfigModel, GenericKeymap, KeymapModel, SavedConfig};
use crate::settings::{
    self, InstalledMethod, InstalledModel, MyPortInfo, PortChoice, PortModel, Settings, SettingsModel,
};
use crate::text::{self, from_utf8_lossy};

verus! {

/// How many bytes the text of a complete keymap has: one for each note.
pub const KEYMAP_LENGTH: usize = 61;

/// The key that the sustain pedal stands for in the standard keymap.
pub const STANDARD_SUSTAIN: &'static str = "space";

/// The name of the method that has a switch for velocity.
pub const VELOCITY_METHOD_NAME: &'static str = "Piano Visualizations";

/// The name of the method whose keymap can be edited.
pub const KEYMAP_METHOD_NAME: &'static str = "Generic";

/// A text is accepted for the notes of a keymap.
pub open spec fn is_keymap_text(text: Seq<char>) -> bool {
    vstd::utf8::encode_utf8(text).len() == KEYMAP_LENGTH
}

/// What the piano visualizer's method is told about velocity.
pub open spec fn velocity_info(on: bool) -> Seq<char> {
    if on {
        "velocity-on"@
    } else {
        "velocity-off"@
    }
}

/// Tells the piano visualizer's method whether velocity is in use.
pub fn velocity_info_text(on: bool) -> (info: &'static str)
    ensures
        info@ == velocity_info(on),
{
    if on {
        "velocity-on"
    } else {
        "velocity-off"
    }
}

/// Whether the switch for velocity is shown beside the method of this name.
pub fn shows_velocity(method_name: &String) -> (shown: bool)
    ensures
        shown == (method_name@ == VELOCITY_METHOD_NAME@),
{
    *method_name == VELOCITY_METHOD_NAME.to_owned()
}

/// Whether the keymap editor is shown beside the method of this name.
pub fn shows_keymap(method_name: &String) -> (shown: bool)
    ensures
        shown == (method_name@ == KEYMAP_METHOD_NAME@),
{
    *method_name == KEYMAP_METHOD_NAME.to_owned()
}

/// What the user does in the panel.
pub enum PanelEvent<P> {
    /// A port is picked from the list.
    ChoosePort(MyPortInfo<P>),
    /// The plain layout is picked.
    ChooseGeneric,
    /// The piano visualizer's method is picked.
    ChoosePv,
    /// The piano rooms' method is picked.
    ChoosePianoRooms,
    /// The switch for velocity is clicked, and now shows this.
    ClickVelocity(bool),
    /// The switch for output is clicked, and now shows this.
    ClickOutput(bool),
    /// The notes of the keymap are edited to this text.
    EditKeymap(String),
    /// The standard keymap is asked for, whose notes are these bytes.
    ResetKeymap(Vec<u8>),
    /// The sustain key is edited to this text. `known` says whether a key of
    /// this name exists.
    EditSustain { text: String, known: bool },
}

/// What is to be done outside the panel.
#[derive(Debug)]
pub enum Effect {
    /// Renew the connection to the input port.
    Reconnect,
    /// Replace the output method by a new one of this kind.
    Install(InstalledMethod),
    /// Reset the output method with this information.
    ResetMethod(&'static str),
    /// Write this configuration to the disk.
    Store(SavedConfig),
}

/// An effect by its texts.
#[verifier::ext_equal]
pub enum EffectModel {
    Reconnect,
    Install(InstalledModel),
    ResetMethod(Seq<char>),
    Store(ConfigModel),
}

impl View for Effect {
    type V = EffectModel;

    open spec fn view(&self) -> EffectModel {
        match self {
            Effect::Reconnect => EffectModel::Reconnect,
            Effect::Install(method) => EffectModel::Install(method@),
            Effect::ResetMethod(info) => EffectModel::ResetMethod(info@),
            Effect::Store(config) => EffectModel::Store(config@),
        }
    }
}

/// Effects by their texts, in the same order.
pub open spec fn effect_models(effects: Seq<Effect>) -> Seq<EffectModel> {
    effects.map_values(|effect: Effect| effect@)
}

/// All that the panel shows and changes.
pub struct Panel<P> {
    pub settings: Settings<P>,
    pub config: SavedConfig,
    /// The notes of the keymap as they stand in the editor.
    pub keymap_text: String,
    /// Whether the notes were accepted.
    pub keymap_valid: bool,
    /// The sustain key as it stands in the editor.
    pub sustain_text: String,
    /// Whether the sustain key was accepted.
    pub sustain_valid: bool,
}

/// The panel by its texts.
#[verifier::ext_equal]
pub struct PanelModel<P> {
    pub settings: SettingsModel<P>,
    pub config: ConfigModel,
    pub keymap_text: Seq<char>,
    pub keymap_valid: bool,
    pub sustain_text: Seq<char>,
    pub sustain_valid: bool,
}

impl<P> View for Panel<P> {
    type V = PanelModel<P>;

    open spec fn view(&self) -> PanelModel<P> {
        PanelModel {
            settings: self.settings@,
            config: self.config@,
            keymap_text: self.keymap_text@,
            keymap_valid: self.keymap_valid,
            sustain_text: self.sustain_text@,
            sustain_valid: self.sustain_valid,
        }
    }
}

impl<P> PanelModel<P> {
    /// The keymap as it stands in the editor.
    pub open spec fn edited_keymap(self) -> KeymapModel {
        KeymapModel { keys: self.keymap_text, sustain: self.sustain_text }
    }

    /// The panel with `method` in use and preferred.
    pub open spec fn using(self, method: InstalledModel) -> PanelModel<P> {
        PanelModel {
            settings: SettingsModel { output_method: method, ..self.settings },
            config: ConfigModel { preferred_output_method: method.choice(), ..self.config },
            ..self
        }
    }

    /// The panel with the keymap in the editor in use, preferred and saved.
    pub open spec fn saving_keymap(self) -> PanelModel<P> {
        let used = self.using(InstalledModel::Generic(self.edited_keymap()));
        PanelModel {
            config: ConfigModel { saved_generic_keymap: self.edited_keymap(), ..used.config },
            ..used
        }
    }

    /// The panel with the standard keymap in the editor, in use, preferred and
    /// saved, where `notes` are its notes.
    pub open spec fn with_standard_keymap(self, notes: Seq<char>) -> PanelModel<P> {
        (PanelModel {
            keymap_text: notes,
            keymap_valid: true,
            sustain_text: STANDARD_SUSTAIN@,
            sustain_valid: true,
            ..self
        }).saving_keymap()
    }

    /// The panel after `event`.
    pub open spec fn after(self, event: PanelEvent<P>) -> PanelModel<P> {
        match event {
            PanelEvent::ChoosePort(port) => PanelModel {
                settings: SettingsModel { port: Some(port@), ..self.settings },
                config: ConfigModel { preferred_port_name: Some(port@.name), ..self.config },
                ..self
            },
            PanelEvent::ChooseGeneric => self.using(InstalledModel::Generic(self.edited_keymap())),
            PanelEvent::ChoosePv => self.using(InstalledModel::PV),
            PanelEvent::ChoosePianoRooms => self.using(InstalledModel::PianoRooms),
            PanelEvent::ClickVelocity(on) => PanelModel {
                settings: SettingsModel { pv_velocity: on, ..self.settings },
                ..self
            },
            PanelEvent::ClickOutput(on) => PanelModel {
                settings: SettingsModel { output: on, ..self.settings },
                ..self
            },
            PanelEvent::EditKeymap(text) => {
                let valid = is_keymap_text(text@);
                let edited = PanelModel { keymap_text: text@, keymap_valid: valid, ..self };
                if valid {
                    edited.saving_keymap()
                } else {
                    edited
                }
            },
            PanelEvent::ResetKeymap(notes) => self.with_standard_keymap(text::lossy_text(notes@)),
            PanelEvent::EditSustain { text, known } => {
                let edited = PanelModel { sustain_text: text@, sustain_valid: known, ..self };
                if known {
                    edited.saving_keymap()
                } else {
                    edited
                }
            },
        }
    }

    /// What `event` has done outside the panel, in order.
    pub open spec fn effects(self, event: PanelEvent<P>) -> Seq<EffectModel> {
        let after = self.after(event);
        let reconnect = EffectModel::Reconnect;
        let install = EffectModel::Install(after.settings.output_method);
        let store = EffectModel::Store(after.config);
        match event {
            PanelEvent::ChoosePort(_) => seq![reconnect, store],
            PanelEvent::ChooseGeneric => seq![reconnect, install, store],
            PanelEvent::ChoosePv => seq![
                reconnect,
                install,
                EffectModel::ResetMethod(velocity_info(self.settings.pv_velocity)),
                store,
            ],
            PanelEvent::ChoosePianoRooms => seq![reconnect, install, store],
            PanelEvent::ClickVelocity(on) => seq![
                reconnect,
                EffectModel::ResetMethod(velocity_info(on)),
            ],
            PanelEvent::ClickOutput(_) => seq![reconnect, EffectModel::ResetMethod(""@)],
            PanelEvent::EditKeymap(_) => if after.keymap_valid {
                seq![reconnect, install, store]
            } else {
                seq![]
            },
            PanelEvent::ResetKeymap(_) => seq![install, store],
            PanelEvent::EditSustain { .. } => if after.sustain_valid {
                seq![reconnect, install, store]
            } else {
                seq![]
            },
        }
    }

    /// The panel after all of `events`, in order.
    pub open spec fn after_all(self, events: Seq<PanelEvent<P>>) -> PanelModel<P>
        decreases events.len(),
    {
        if events.len() == 0 {
            self
        } else {
            self.after_all(events.drop_last()).after(events.last())
        }
    }

    /// What all of `events` have done outside the panel, in order.
    pub open spec fn all_effects(self, events: Seq<PanelEvent<P>>) -> Seq<EffectModel>
        decreases events.len(),
    {
        if events.len() == 0 {
            seq![]
        } else {
            self.all_effects(events.drop_last()) + self.after_all(events.drop_last()).effects(
                events.last(),
            )
        }
    }

    /// The method in use is the preferred one, and there is a port to listen to.
    pub open spec fn consistent(self) -> bool {
        &&& self.settings.output_method.choice() == self.config.preferred_output_method
        &&& self.settings.port is Some
    }
}

/// The configuration on the disk once `effects` have been carried out, where
/// `disk` was on it before.
pub open spec fn disk_after(disk: ConfigModel, effects: Seq<EffectModel>) -> ConfigModel
    decreases effects.len(),
{
    if effects.len() == 0 {
        disk
    } else {
        match effects.last() {
            EffectModel::Store(config) => config,
            _ => disk_after(disk, effects.drop_last()),
        }
    }
}

/// The output method that is installed once `effects` have been carried out,
/// where `installed` was before.
pub open spec fn installed_after(installed: InstalledModel, effects: Seq<EffectModel>) -> InstalledModel
    decreases effects.len(),
{
    if effects.len() == 0 {
        installed
    } else {
        match effects.last() {
            EffectModel::Install(method) => method,
            _ => installed_after(installed, effects.drop_last()),
        }
    }
}

/// `panel` is what opens on `config`, where `first` is the port that is listened
/// to where the preferred one is not among `ports`.
pub open spec fn opens_on<P: Clone>(
    panel: PanelModel<P>,
    config: ConfigModel,
    first: PortModel<P>,
    ports: Seq<MyPortInfo<P>>,
    choice: PortChoice,
) -> bool {
    let start = SettingsModel {
        output_method: panel.settings.output_method,
        port: Some(first),
        output: true,
        pv_velocity: true,
    };
    &&& panel.settings.output_method.choice() == config.preferred_output_method
    &&& settings::preference_applied(
        start,
        panel.settings,
        config.preferred_port_name,
        ports,
        choice,
    )
    &&& panel.config == config
    &&& panel.edited_keymap() == config.saved_generic_keymap
    &&& panel.keymap_valid
    &&& panel.sustain_valid
}

impl<P: Clone> Panel<P> {
    /// The panel of a program that starts on `config`. It listens to the
    /// preferred port where that is among `ports`, and else to `first`.
    pub fn open(config: SavedConfig, first: MyPortInfo<P>, ports: &Vec<MyPortInfo<P>>) -> (opened: (
        Panel<P>,
        PortChoice,
    ))
        requires
            config@.preferred_output_method.complete(),
        ensures
            opens_on(opened.0@, config@, first@, ports@, opened.1),
            opened.0@.consistent(),
    {
        let mut settings: Settings<P> = Settings::with_output_method(
            config.preferred_output_method.clone(),
        ).set_port(first);
        let choice: PortChoice = settings.prefer_port(&config.preferred_port_name, ports);
        let GenericKeymap { keys, sustain } = config.saved_generic_keymap.clone();
        let panel: Panel<P> = Panel {
            settings,
            config,
            keymap_text: keys,
            keymap_valid: true,
            sustain_text: sustain,
            sustain_valid: true,
        };
        (panel, choice)
    }
}

impl<P> Panel<P> {
    /// The keymap as it stands in the editor.
    fn edited_keymap(&self) -> (keymap: GenericKeymap)
        ensures
            keymap@ == self@.edited_keymap(),
    {
        GenericKeymap { keys: self.keymap_text.clone(), sustain: self.sustain_text.clone() }
    }

    /// Puts `method` in use and makes it the preferred one.
    fn put_in_use(&mut self, method: InstalledMethod) -> (effect: Effect)
        ensures
            final(self)@ == old(self)@.using(method@),
            effect@ == EffectModel::Install(method@),
    {
        self.config.preferred_output_method = match &method {
            InstalledMethod::Generic(keymap) => AvailableOutputMethod::Generic(Some(keymap.clone())),
            InstalledMethod::PV => AvailableOutputMethod::PV,
            InstalledMethod::PianoRooms => AvailableOutputMethod::PianoRooms,
        };
        self.settings.output_method = method.clone();
        Effect::Install(method)
    }

    /// Puts the keymap in the editor in use, makes it the preferred one, and
    /// saves it.
    fn save_keymap(&mut self) -> (effect: Effect)
        ensures
            final(self)@ == old(self)@.saving_keymap(),
            effect@ == EffectModel::Install(final(self)@.settings.output_method),
    {
        let keymap: GenericKeymap = self.edited_keymap();
        let effect: Effect = self.put_in_use(InstalledMethod::Generic(keymap.clone()));
        self.config.saved_generic_keymap = keymap;
        effect
    }

    /// The effect that keeps the configuration as it now is.
    fn store(&self) -> (effect: Effect)
        ensures
            effect@ == EffectModel::Store(self@.config),
    {
        Effect::Store(self.config.clone())
    }

    /// Goes back to the standard keymap, whose notes are given, and returns what
    /// is to be done outside the panel. The connection is not renewed.
    pub fn reset_keymap(&mut self, notes: String) -> (effects: Vec<Effect>)
        ensures
            final(self)@ == old(self)@.with_standard_keymap(notes@),
            effect_models(effects@) == seq![
                EffectModel::Install(final(self)@.settings.output_method),
                EffectModel::Store(final(self)@.config),
            ],
    {
        self.keymap_text = notes;
        self.keymap_valid = true;
        self.sustain_text = STANDARD_SUSTAIN.to_owned();
        self.sustain_valid = true;
        let mut effects: Vec<Effect> = Vec::new();
        effects.push(self.save_keymap());
        effects.push(self.store());
        effects
    }

    /// Does in the panel what `event` asks for, and returns what is to be done
    /// outside it.
    pub fn handle(&mut self, event: PanelEvent<P>) -> (effects: Vec<Effect>)
        ensures
            final(self)@ == old(self)@.after(event),
            effect_models(effects@) == old(self)@.effects(event),
            old(self)@.consistent() ==> final(self)@.consistent(),
            event matches PanelEvent::ResetKeymap(notes) ==> vstd::utf8::valid_utf8(notes@) ==> {
                &&& final(self)@.keymap_text == vstd::utf8::decode_utf8(notes@)
                &&& is_keymap_text(final(self)@.keymap_text) <==> notes@.len() == KEYMAP_LENGTH
            },
    {
        let mut effects: Vec<Effect> = Vec::new();
        match event {
            PanelEvent::ChoosePort(port) => {
                self.config.preferred_port_name = Some(port.name.clone());
                self.settings.port = Some(port);
                effects.push(Effect::Reconnect);
                effects.push(self.store());
            },
            PanelEvent::ChooseGeneric => {
                effects.push(Effect::Reconnect);
                let keymap: GenericKeymap = self.edited_keymap();
                effects.push(self.put_in_use(InstalledMethod::Generic(keymap)));
                effects.push(self.store());
            },
            PanelEvent::ChoosePv => {
                effects.push(Effect::Reconnect);
                effects.push(self.put_in_use(InstalledMethod::PV));
                effects.push(Effect::ResetMethod(velocity_info_text(self.settings.pv_velocity)));
                effects.push(self.store());
            },
            PanelEvent::ChoosePianoRooms => {
                effects.push(Effect::Reconnect);
                effects.push(self.put_in_use(InstalledMethod::PianoRooms));
                effects.push(self.store());
            },
            PanelEvent::ClickVelocity(on) => {
                self.settings.pv_velocity = on;
                effects.push(Effect::Reconnect);
                effects.push(Effect::ResetMethod(velocity_info_text(on)));
            },
            PanelEvent::ClickOutput(on) => {
                self.settings.output = on;
                effects.push(Effect::Reconnect);
                effects.push(Effect::ResetMethod(""));
            },
            PanelEvent::EditKeymap(text) => {
                self.keymap_valid = text.as_str().as_bytes().len() == KEYMAP_LENGTH;
                self.keymap_text = text;
                if self.keymap_valid {
                    effects.push(Effect::Reconnect);
                    effects.push(self.save_keymap());
                    effects.push(self.store());
                }
            },
            PanelEvent::ResetKeymap(notes) => {
                proof {
                    if vstd::utf8::valid_utf8(notes@) {
                        vstd::utf8::decode_utf8_encode_utf8(notes@);
                    }
                }
                effects = self.reset_keymap(from_utf8_lossy(notes.as_slice()));
            },
            PanelEvent::EditSustain { text, known } => {
                self.sustain_text = text;
                self.sustain_valid = known;
                if self.sustain_valid {
                    effects.push(Effect::Reconnect);
                    effects.push(self.save_keymap());
                    effects.push(self.store());
                }
            },
        }
        effects
    }
}

} // verus!
