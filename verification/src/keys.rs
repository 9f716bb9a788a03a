//! Keys of the computer keyboard and what is done to them.

use vstd::prelude::*;

verus! {

/// A key, known by its name in the key table.
#[derive(Debug)]
pub struct Key {
    pub name: String,
}

impl View for Key {
    type V = Seq<char>;

    open spec fn view(&self) -> Seq<char> {
        self.name@
    }
}

impl Key {
    pub fn new(name: &str) -> (key: Key)
        ensures
            key@ == name@,
    {
        Key { name: name.to_owned() }
    }
}

/// What the virtual keyboard is told to do.
#[derive(Debug)]
pub enum KeyEvent {
    Press(Key),
    Release(Key),
}

pub type KeyEvents = Vec<KeyEvent>;

/// The keys that are down once `event` has happened, where those in `held`
/// were down before it.
pub open spec fn held_after_one(held: Set<Seq<char>>, event: KeyEvent) -> Set<Seq<char>> {
    match event {
        KeyEvent::Press(key) => held.insert(key@),
        KeyEvent::Release(key) => held.remove(key@),
    }
}

/// The keys that are down once all of `events` have happened in order.
pub open spec fn held_after(held: Set<Seq<char>>, events: Seq<KeyEvent>) -> Set<Seq<char>>
    decreases events.len(),
{
    if events.len() == 0 {
        held
    } else {
        held_after_one(held_after(held, events.drop_last()), events.last())
    }
}

/// `events` is one release for each of `names`, in that order.
pub open spec fn releases_each(names: Seq<&str>, events: Seq<KeyEvent>) -> bool {
    &&& events.len() == names.len()
    &&& forall|i: int|
        0 <= i < names.len() ==> (#[trigger] events[i] matches KeyEvent::Release(key) && key@ == names[i]@)
}

/// A release of every key whose name is given, in the order of the names.
pub fn release_all(names: &[&str]) -> (events: KeyEvents)
    ensures
        releases_each(names@, events@),
{
    let mut events: KeyEvents = Vec::new();
    for i in 0..names.len()
        invariant
            events@.len() == i,
            forall|j: int|
                0 <= j < i ==> (#[trigger] events@[j] matches KeyEvent::Release(key) && key@ == names@[j]@),
    {
        events.push(KeyEvent::Release(Key::new(names[i])));
    }
    events
}

} // verus!
