//! The settings that are in force while the program runs, and the input ports
//! to choose from.

use vstd::prelude::*;

use crate::config::{AvailableModel, AvailableOutputMethod, GenericKeymap, KeymapModel};

verus! {

/// The name that is shown for a port whose own name cannot be read any more.
pub const LOST_PORT_NAME: &'static str = "This port is no longer valid.";

/// An input port: the handle by which the system knows it, and its name.
pub struct MyPortInfo<P> {
    pub port: P,
    pub name: String,
}

/// An input port with its name as a text.
#[verifier::ext_equal]
pub struct PortModel<P> {
    pub port: P,
    pub name: Seq<char>,
}

impl<P> View for MyPortInfo<P> {
    type V = PortModel<P>;

    open spec fn view(&self) -> PortModel<P> {
        PortModel { port: self.port, name: self.name@ }
    }
}

/// `copy` is a copy of `port`: the same name, and a clone of the handle.
pub open spec fn is_copy<P: Clone>(port: PortModel<P>, copy: PortModel<P>) -> bool {
    &&& copy.name == port.name
    &&& cloned(port.port, copy.port)
}

impl<P: Clone> Clone for MyPortInfo<P> {
    fn clone(&self) -> (copy: Self)
        ensures
            is_copy(self@, copy@),
    {
        MyPortInfo { port: self.port.clone(), name: self.name.clone() }
    }
}

impl<P> MyPortInfo<P> {
    /// A port is shown by its name.
    pub fn fmt(&self) -> (shown: String)
        ensures
            shown@ == self.name@,
    {
        self.name.clone()
    }

    /// The port with this handle, where `name` is its name if that could be read.
    pub fn with_name(port: P, name: Option<String>) -> (info: Self)
        ensures
            info@ == (PortModel { port, name: shown_name(name) }),
    {
        let name: String = match name {
            Some(name) => name,
            None => LOST_PORT_NAME.to_owned(),
        };
        MyPortInfo { port, name }
    }
}

/// The name that is shown for a port.
pub open spec fn shown_name(name: Option<String>) -> Seq<char> {
    match name {
        Some(name) => name@,
        None => LOST_PORT_NAME@,
    }
}

/// The list of the ports that were found, in the order in which they were.
pub fn list_ports<P>(found: Vec<(P, Option<String>)>) -> (ports: Vec<MyPortInfo<P>>)
    ensures
        ports@.len() == found@.len(),
        forall|i: int|
            0 <= i < found@.len() ==> #[trigger] ports@[i]@ == (PortModel {
                port: found@[i].0,
                name: shown_name(found@[i].1),
            }),
{
    let mut ports: Vec<MyPortInfo<P>> = Vec::new();
    for entry in entries: found
        invariant
            entries.seq() == found@,
            ports@.len() == entries.index(),
            forall|i: int|
                0 <= i < ports@.len() ==> #[trigger] ports@[i]@ == (PortModel {
                    port: found@[i].0,
                    name: shown_name(found@[i].1),
                }),
    {
        ports.push(MyPortInfo::with_name(entry.0, entry.1));
    }
    ports
}

/// The port that is listened to where none is preferred, if there is a port.
pub fn first_port<P: Clone>(ports: &Vec<MyPortInfo<P>>) -> (first: Option<MyPortInfo<P>>)
    ensures
        first is None <==> ports@.len() == 0,
        first matches Some(port) ==> is_copy(ports@[0]@, port@),
{
    if ports.len() == 0 {
        None
    } else {
        Some(ports[0].clone())
    }
}

/// An output method that has been set up.
#[derive(Debug)]
pub enum InstalledMethod {
    Generic(GenericKeymap),
    PV,
    PianoRooms,
}

/// An output method that has been set up, by the texts of its keymap.
#[verifier::ext_equal]
pub enum InstalledModel {
    Generic(KeymapModel),
    PV,
    PianoRooms,
}

impl InstalledModel {
    /// The choice that sets this method up.
    pub open spec fn choice(self) -> AvailableModel {
        match self {
            InstalledModel::Generic(keymap) => AvailableModel::Generic(Some(keymap)),
            InstalledModel::PV => AvailableModel::PV,
            InstalledModel::PianoRooms => AvailableModel::PianoRooms,
        }
    }
}

impl View for InstalledMethod {
    type V = InstalledModel;

    open spec fn view(&self) -> InstalledModel {
        match self {
            InstalledMethod::Generic(keymap) => InstalledModel::Generic(keymap@),
            InstalledMethod::PV => InstalledModel::PV,
            InstalledMethod::PianoRooms => InstalledModel::PianoRooms,
        }
    }
}

impl Clone for InstalledMethod {
    fn clone(&self) -> (copy: Self)
        ensures
            copy == *self,
    {
        match self {
            InstalledMethod::Generic(keymap) => InstalledMethod::Generic(keymap.clone()),
            InstalledMethod::PV => InstalledMethod::PV,
            InstalledMethod::PianoRooms => InstalledMethod::PianoRooms,
        }
    }
}

/// The settings in force.
pub struct Settings<P> {
    pub output_method: InstalledMethod,
    /// The port that is listened to.
    pub port: Option<MyPortInfo<P>>,
    /// Whether messages lead to key events at all.
    pub output: bool,
    /// Whether the piano visualizer's method makes use of velocity.
    pub pv_velocity: bool,
}

/// The settings by their texts.
#[verifier::ext_equal]
pub struct SettingsModel<P> {
    pub output_method: InstalledModel,
    pub port: Option<PortModel<P>>,
    pub output: bool,
    pub pv_velocity: bool,
}

impl<P> View for Settings<P> {
    type V = SettingsModel<P>;

    open spec fn view(&self) -> SettingsModel<P> {
        SettingsModel {
            output_method: self.output_method@,
            port: match self.port {
                Some(port) => Some(port@),
                None => None,
            },
            output: self.output,
            pv_velocity: self.pv_velocity,
        }
    }
}

/// How the preference for a port turned out.
#[derive(Debug, Clone, Copy, PartialEq, Eq, Structural)]
pub enum PortChoice {
    /// No port is preferred.
    NoPreference,
    /// The preferred port is there, and is listened to.
    Preferred,
    /// No port has the preferred name.
    NotFound,
}

/// Position `i` holds the first of `ports` whose name is `name`.
pub open spec fn first_named<P>(ports: Seq<MyPortInfo<P>>, name: Seq<char>, i: int) -> bool {
    &&& 0 <= i < ports.len()
    &&& ports[i]@.name == name
    &&& forall|j: int| 0 <= j < i ==> #[trigger] ports[j]@.name != name
}

/// One of `ports` has the name `name`.
pub open spec fn has_named<P>(ports: Seq<MyPortInfo<P>>, name: Seq<char>) -> bool {
    exists|i: int| 0 <= i < ports.len() && #[trigger] ports[i]@.name == name
}

/// `after` is `before`, but listening to a copy of the first of `ports` whose
/// name is `name`.
pub open spec fn listens_to_first_named<P: Clone>(
    before: SettingsModel<P>,
    after: SettingsModel<P>,
    ports: Seq<MyPortInfo<P>>,
    name: Seq<char>,
) -> bool {
    &&& after == SettingsModel { port: after.port, ..before }
    &&& exists|i: int| #[trigger]
        first_named(ports, name, i) && (after.port matches Some(port) && is_copy(ports[i]@, port))
}

/// What `Settings::prefer_port` does to the settings, and what it returns.
pub open spec fn preference_applied<P: Clone>(
    before: SettingsModel<P>,
    after: SettingsModel<P>,
    preferred: Option<Seq<char>>,
    ports: Seq<MyPortInfo<P>>,
    choice: PortChoice,
) -> bool {
    match preferred {
        None => choice == PortChoice::NoPreference && after == before,
        Some(name) => if has_named(ports, name) {
            choice == PortChoice::Preferred && listens_to_first_named(before, after, ports, name)
        } else {
            choice == PortChoice::NotFound && after == before
        },
    }
}

impl<P> Settings<P> {
    /// The settings of a program that starts with `method`: no port yet, output
    /// on and velocity in use.
    pub fn with_output_method(method: AvailableOutputMethod) -> (settings: Self)
        requires
            method@.complete(),
        ensures
            settings@.output_method.choice() == method@,
            settings.port is None,
            settings.output,
            settings.pv_velocity,
    {
        let output_method: InstalledMethod = match method {
            AvailableOutputMethod::Generic(keymap) => InstalledMethod::Generic(keymap.unwrap()),
            AvailableOutputMethod::PV => InstalledMethod::PV,
            AvailableOutputMethod::PianoRooms => InstalledMethod::PianoRooms,
        };
        Settings { output_method, port: None, output: true, pv_velocity: true }
    }

    /// The same settings, listening to `port`.
    pub fn set_port(self, port: MyPortInfo<P>) -> (settings: Self)
        ensures
            settings == (Settings { port: Some(port), ..self }),
    {
        let mut settings: Self = self;
        settings.port = Some(port);
        settings
    }

    /// The port to connect to.
    pub fn connection_target(&self) -> (target: &MyPortInfo<P>)
        requires
            self.port is Some,
        ensures
            Some(*target) == self.port,
    {
        self.port.as_ref().unwrap()
    }
}

impl<P: Clone> Settings<P> {
    /// Listens to the first of `ports` that has the preferred name. Where none
    /// has it, or none is preferred, the port stays as it is.
    pub fn prefer_port(&mut self, preferred: &Option<String>, ports: &Vec<MyPortInfo<P>>) -> (choice:
        PortChoice)
        ensures
            preference_applied(
                old(self)@,
                final(self)@,
                crate::config::text_of(*preferred),
                ports@,
                choice,
            ),
    {
        let name: &String = match preferred {
            Some(name) => name,
            None => return PortChoice::NoPreference,
        };
        for i in 0..ports.len()
            invariant
                *self == *old(self),
                *preferred == Some(*name),
                forall|j: int| 0 <= j < i ==> #[trigger] ports@[j]@.name != name@,
        {
            if ports[i].name == *name {
                assert(first_named(ports@, name@, i as int));
                self.port = Some(ports[i].clone());
                return PortChoice::Preferred;
            }
        }
        PortChoice::NotFound
    }
}

} // verus!
