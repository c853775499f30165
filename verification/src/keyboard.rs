//! The keypad: sixteen keys, valued 0 to 15, and which of them are held.
//!
//! The keys are those of a keyboard that bear the hexadecimal digits. Events
//! name a key by its key code, the number of the character on it.

use vstd::prelude::*;
use std::collections::HashSet;

verus! {

broadcast use vstd::std_specs::hash::group_hash_axioms;

/// A key of the keypad, by its value.
#[derive(Copy, Clone, Debug, PartialEq, Eq, Structural)]
pub struct Key(pub u8);

/// What a keyboard reports: a key went down or up, by its key code where it
/// has one, or something that is of no concern here.
#[derive(Copy, Clone, Debug, PartialEq, Eq, Structural)]
pub enum InputEvent {
    KeyDown { keycode: Option<i32> },
    KeyUp { keycode: Option<i32> },
    Other,
}

/// A key of the keypad went down or up.
#[derive(Copy, Clone, Debug, PartialEq, Eq, Structural)]
pub enum KeyEvent {
    KeyDown(Key),
    KeyUp(Key),
}

/// The key code of the key valued `value`: that of the digit for 0 to 9, that
/// of the letter `a` to `f` for 10 to 15.
pub open spec fn keycode_of(value: u8) -> Option<i32> {
    if value < 10 {
        Some((48 + value) as i32)
    } else if value < 16 {
        Some((97 + (value - 10)) as i32)
    } else {
        None
    }
}

/// The value of the key whose key code is `keycode`, if it is a key of the
/// keypad.
pub open spec fn key_of(keycode: i32) -> Option<Key> {
    if 48 <= keycode <= 57 {
        Some(Key((keycode - 48) as u8))
    } else if 97 <= keycode <= 102 {
        Some(Key((keycode - 97 + 10) as u8))
    } else {
        None
    }
}

/// The key codes held after `event`, where `pressed` were held before it.
pub open spec fn pressed_after_event(pressed: Set<i32>, event: InputEvent) -> Set<i32> {
    match event {
        InputEvent::KeyDown { keycode: Some(code) } => pressed.insert(code),
        InputEvent::KeyUp { keycode: Some(code) } => pressed.remove(code),
        _ => pressed,
    }
}

/// The key codes held after `events`, in their order.
pub open spec fn pressed_after(pressed: Set<i32>, events: Seq<InputEvent>) -> Set<i32>
    decreases events.len(),
{
    if events.len() == 0 {
        pressed
    } else {
        pressed_after_event(pressed_after(pressed, events.drop_last()), events.last())
    }
}

/// What `event` means for the keypad: nothing, unless it is about one of the
/// sixteen keys.
pub open spec fn key_event_of(event: InputEvent) -> Option<KeyEvent> {
    match event {
        InputEvent::KeyDown { keycode: Some(code) } => match key_of(code) {
            Some(key) => Some(KeyEvent::KeyDown(key)),
            None => None,
        },
        InputEvent::KeyUp { keycode: Some(code) } => match key_of(code) {
            Some(key) => Some(KeyEvent::KeyUp(key)),
            None => None,
        },
        _ => None,
    }
}

/// Whether `event` says that a key of the keypad went down.
pub open spec fn is_key_down(event: InputEvent) -> bool {
    key_event_of(event) matches Some(KeyEvent::KeyDown(_))
}

/// The place of the first event among `events` that says that a key of the
/// keypad went down; the number of events where there is none.
pub open spec fn first_key_down(events: Seq<InputEvent>) -> int
    decreases events.len(),
{
    if events.len() == 0 {
        0
    } else if is_key_down(events.first()) {
        0
    } else {
        1 + first_key_down(events.drop_first())
    }
}

/// The first key-down of the keypad among `events` stands at `at` where none
/// stands before `at` and one stands there, or `at` is the end.
proof fn lemma_first_key_down(events: Seq<InputEvent>, at: int)
    requires
        0 <= at <= events.len(),
        forall|j: int| 0 <= j < at ==> !is_key_down(#[trigger] events[j]),
        at < events.len() ==> is_key_down(events[at]),
    ensures
        first_key_down(events) == at,
    decreases at,
{
    if at > 0 {
        let rest = events.drop_first();
        assert forall|j: int| 0 <= j < at - 1 implies !is_key_down(#[trigger] rest[j]) by {
            assert(rest[j] == events[j + 1]);
        }
        lemma_first_key_down(rest, at - 1);
    }
}

impl Key {
    /// The key whose key code is `keycode`, if it is one of the keypad.
    pub fn from_keycode(keycode: i32) -> (key: Option<Key>)
        ensures
            key == key_of(keycode),
    {
        if 48 <= keycode && keycode <= 57 {
            Some(Key((keycode - 48) as u8))
        } else if 97 <= keycode && keycode <= 102 {
            Some(Key((keycode - 97 + 10) as u8))
        } else {
            None
        }
    }

    /// The key code of this key; none where its value is 16 or more.
    pub fn keycode(self) -> (keycode: Option<i32>)
        ensures
            keycode == keycode_of(self.0),
    {
        if self.0 < 10 {
            Some(48 + self.0 as i32)
        } else if self.0 < 16 {
            Some(97 + (self.0 - 10) as i32)
        } else {
            None
        }
    }
}

/// A keyboard: the key codes of the keys that are held.
pub struct Keyboard {
    keys_pressed: HashSet<i32>,
}

impl View for Keyboard {
    type V = Set<i32>;

    /// The key codes of the keys that are held.
    closed spec fn view(&self) -> Set<i32> {
        self.keys_pressed@
    }
}

impl Keyboard {
    /// A keyboard on which no key is held.
    pub fn new() -> (keyboard: Keyboard)
        ensures
            keyboard@ == Set::<i32>::empty(),
    {
        Keyboard { keys_pressed: HashSet::new() }
    }

    /// Takes note of one event, and says what it means for the keypad.
    pub fn process_event(&mut self, event: InputEvent) -> (key_event: Option<KeyEvent>)
        ensures
            final(self)@ == pressed_after_event(old(self)@, event),
            key_event == key_event_of(event),
    {
        match event {
            InputEvent::KeyDown { keycode } => {
                if let Some(code) = keycode {
                    self.keys_pressed.insert(code);
                    match Key::from_keycode(code) {
                        Some(key) => Some(KeyEvent::KeyDown(key)),
                        None => None,
                    }
                } else {
                    None
                }
            },
            InputEvent::KeyUp { keycode } => {
                if let Some(code) = keycode {
                    self.keys_pressed.remove(&code);
                    match Key::from_keycode(code) {
                        Some(key) => Some(KeyEvent::KeyUp(key)),
                        None => None,
                    }
                } else {
                    None
                }
            },
            InputEvent::Other => None,
        }
    }

    /// Takes note of the events, in their order.
    pub fn process_events(&mut self, events: &[InputEvent])
        ensures
            final(self)@ == pressed_after(old(self)@, events@),
    {
        let mut i: usize = 0;
        while i < events.len()
            invariant
                i <= events.len(),
                self@ == pressed_after(old(self)@, events@.take(i as int)),
            decreases events.len() - i,
        {
            let _ = self.process_event(events[i]);
            proof {
                assert(events@.take(i + 1).drop_last() =~= events@.take(i as int));
            }
            i = i + 1;
        }
        assert(events@.take(i as int) =~= events@);
    }

    /// Whether `key` is held. No key valued 16 or more ever is.
    pub fn is_pressed(&self, key: Key) -> (held: bool)
        ensures
            held == match keycode_of(key.0) {
                Some(code) => self@.contains(code),
                None => false,
            },
    {
        match key.keycode() {
            Some(code) => self.keys_pressed.contains(&code),
            None => false,
        }
    }

    /// Takes note of the events, in their order, up to and including the
    /// first that says that a key of the keypad went down. Returns that key,
    /// if there is one, and the number of events taken note of.
    pub fn next_key(&mut self, events: &[InputEvent]) -> (found: (Option<Key>, usize))
        ensures
            found.1 == if first_key_down(events@) < events@.len() {
                first_key_down(events@) + 1
            } else {
                events@.len() as int
            },
            final(self)@ == pressed_after(old(self)@, events@.take(found.1 as int)),
            first_key_down(events@) < events@.len() ==> found.0 is Some && key_event_of(
                events@[first_key_down(events@)],
            ) == Some(KeyEvent::KeyDown(found.0->Some_0)),
            first_key_down(events@) >= events@.len() ==> found.0 is None,
    {
        let mut i: usize = 0;
        while i < events.len()
            invariant
                i <= events.len(),
                self@ == pressed_after(old(self)@, events@.take(i as int)),
                forall|j: int| 0 <= j < i ==> !is_key_down(#[trigger] events@[j]),
            decreases events.len() - i,
        {
            let key_event = self.process_event(events[i]);
            proof {
                assert(events@.take(i + 1).drop_last() =~= events@.take(i as int));
            }
            if let Some(KeyEvent::KeyDown(key)) = key_event {
                proof {
                    lemma_first_key_down(events@, i as int);
                }
                return (Some(key), i + 1);
            }
            i = i + 1;
        }
        proof {
            lemma_first_key_down(events@, i as int);
        }
        (None, i)
    }
}

} // verus!
