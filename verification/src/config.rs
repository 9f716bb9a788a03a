//! The configuration that is kept between two runs of the program.

use vstd::prelude::*;

verus! {

/// Which keys the plain keyboard layout uses: one for each note, and one for
/// the sustain pedal.
#[derive(Debug)]
pub struct GenericKeymap {
    pub keys: String,
    pub sustain: String,
}

/// The texts of a keymap.
#[verifier::ext_equal]
pub struct KeymapModel {
    pub keys: Seq<char>,
    pub sustain: Seq<char>,
}

impl View for GenericKeymap {
    type V = KeymapModel;

    open spec fn view(&self) -> KeymapModel {
        KeymapModel { keys: self.keys@, sustain: self.sustain@ }
    }
}

impl Clone for GenericKeymap {
    fn clone(&self) -> (copy: Self)
        ensures
            copy == *self,
    {
        GenericKeymap { keys: self.keys.clone(), sustain: self.sustain.clone() }
    }
}

/// An output method that can be chosen, as the configuration names it.
#[derive(Debug)]
pub enum AvailableOutputMethod {
    Generic(Option<GenericKeymap>),
    PV,
    PianoRooms,
}

/// An output method by the texts of its keymap.
#[verifier::ext_equal]
pub enum AvailableModel {
    Generic(Option<KeymapModel>),
    PV,
    PianoRooms,
}

impl AvailableModel {
    /// The method can be set up: the plain layout has its keymap.
    pub open spec fn complete(self) -> bool {
        self != AvailableModel::Generic(None)
    }
}

impl View for AvailableOutputMethod {
    type V = AvailableModel;

    open spec fn view(&self) -> AvailableModel {
        match self {
            AvailableOutputMethod::Generic(Some(keymap)) => AvailableModel::Generic(Some(keymap@)),
            AvailableOutputMethod::Generic(None) => AvailableModel::Generic(None),
            AvailableOutputMethod::PV => AvailableModel::PV,
            AvailableOutputMethod::PianoRooms => AvailableModel::PianoRooms,
        }
    }
}

impl Clone for AvailableOutputMethod {
    fn clone(&self) -> (copy: Self)
        ensures
            copy == *self,
    {
        match self {
            AvailableOutputMethod::Generic(Some(keymap)) => AvailableOutputMethod::Generic(Some(keymap.clone())),
            AvailableOutputMethod::Generic(None) => AvailableOutputMethod::Generic(None),
            AvailableOutputMethod::PV => AvailableOutputMethod::PV,
            AvailableOutputMethod::PianoRooms => AvailableOutputMethod::PianoRooms,
        }
    }
}

impl AvailableOutputMethod {
    /// Whether the method can be set up.
    pub fn is_complete(&self) -> (complete: bool)
        ensures
            complete == self@.complete(),
    {
        match self {
            AvailableOutputMethod::Generic(None) => false,
            _ => true,
        }
    }
}

/// What is kept between two runs.
#[derive(Debug)]
pub struct SavedConfig {
    /// The name of the port that was chosen last.
    pub preferred_port_name: Option<String>,
    /// The output method that was chosen last.
    pub preferred_output_method: AvailableOutputMethod,
    /// The keymap that was edited last.
    pub saved_generic_keymap: GenericKeymap,
}

/// A configuration by its texts.
#[verifier::ext_equal]
pub struct ConfigModel {
    pub preferred_port_name: Option<Seq<char>>,
    pub preferred_output_method: AvailableModel,
    pub saved_generic_keymap: KeymapModel,
}

/// The text of an optional string.
pub open spec fn text_of(text: Option<String>) -> Option<Seq<char>> {
    match text {
        Some(string) => Some(string@),
        None => None,
    }
}

impl View for SavedConfig {
    type V = ConfigModel;

    open spec fn view(&self) -> ConfigModel {
        ConfigModel {
            preferred_port_name: text_of(self.preferred_port_name),
            preferred_output_method: self.preferred_output_method@,
            saved_generic_keymap: self.saved_generic_keymap@,
        }
    }
}

impl Clone for SavedConfig {
    fn clone(&self) -> (copy: Self)
        ensures
            copy == *self,
    {
        SavedConfig {
            preferred_port_name: match &self.preferred_port_name {
                Some(name) => Some(name.clone()),
                None => None,
            },
            preferred_output_method: self.preferred_output_method.clone(),
            saved_generic_keymap: self.saved_generic_keymap.clone(),
        }
    }
}

impl SavedConfig {
    /// The configuration of a first run: no port is preferred, and the plain
    /// layout is used with the standard keymap, which is given.
    pub fn default(standard: &GenericKeymap) -> (config: SavedConfig)
        ensures
            config@ == (ConfigModel {
                preferred_port_name: None,
                preferred_output_method: AvailableModel::Generic(Some(standard@)),
                saved_generic_keymap: standard@,
            }),
            config@.preferred_output_method.complete(),
    {
        SavedConfig {
            preferred_port_name: None,
            preferred_output_method: AvailableOutputMethod::Generic(Some(standard.clone())),
            saved_generic_keymap: standard.clone(),
        }
    }
}

} // verus!
