//! The sixteen keys of the hexadecimal keypad and which of them are down.

use std::collections::HashSet;
use vstd::prelude::*;

verus! {

broadcast use vstd::std_specs::hash::group_hash_axioms;

pub const NUMBER_OF_KEYS: usize = 0x10;

/// A key of the keypad. The keys stand in the order of the hexadecimal
/// digits that they are labelled with.
#[derive(Copy, Clone, Debug, PartialEq, Eq, Hash, Structural)]
pub enum Key {
    D0,
    D1,
    D2,
    D3,
    D4,
    D5,
    D6,
    D7,
    D8,
    D9,
    A,
    B,
    C,
    D,
    E,
    F,
}

impl Key {
    /// The hexadecimal digit on the key.
    pub open spec fn digit(self) -> u8 {
        match self {
            Key::D0 => 0x0,
            Key::D1 => 0x1,
            Key::D2 => 0x2,
            Key::D3 => 0x3,
            Key::D4 => 0x4,
            Key::D5 => 0x5,
            Key::D6 => 0x6,
            Key::D7 => 0x7,
            Key::D8 => 0x8,
            Key::D9 => 0x9,
            Key::A => 0xA,
            Key::B => 0xB,
            Key::C => 0xC,
            Key::D => 0xD,
            Key::E => 0xE,
            Key::F => 0xF,
        }
    }

    /// The hexadecimal digit on the key.
    pub fn value(&self) -> (digit: u8)
        ensures
            digit == self.digit(),
            digit <= 0xF,
    {
        match self {
            Key::D0 => 0x0,
            Key::D1 => 0x1,
            Key::D2 => 0x2,
            Key::D3 => 0x3,
            Key::D4 => 0x4,
            Key::D5 => 0x5,
            Key::D6 => 0x6,
            Key::D7 => 0x7,
            Key::D8 => 0x8,
            Key::D9 => 0x9,
            Key::A => 0xA,
            Key::B => 0xB,
            Key::C => 0xC,
            Key::D => 0xD,
            Key::E => 0xE,
            Key::F => 0xF,
        }
    }
}

/// The keys that are held down. Its view is the set of those keys.
pub struct Keypad {
    pressed: HashSet<u8>,
}

impl View for Keypad {
    type V = Set<Key>;

    closed spec fn view(&self) -> Set<Key> {
        Set::new(|key: Key| self.pressed@.contains(key.digit()))
    }
}

impl Keypad {
    /// A keypad with no key down.
    pub fn new() -> (keypad: Keypad)
        ensures
            keypad@ == Set::<Key>::empty(),
    {
        Keypad { pressed: HashSet::new() }
    }

    pub fn press(&mut self, key: Key)
        ensures
            final(self)@ == old(self)@.insert(key),
    {
        self.pressed.insert(key.value());
    }

    pub fn release(&mut self, key: &Key)
        ensures
            final(self)@ == old(self)@.remove(*key),
    {
        let digit = key.value();
        self.pressed.remove(&digit);
    }

    pub fn is_pressed(&self, key: &Key) -> (pressed: bool)
        ensures
            pressed == self@.contains(*key),
    {
        let digit = key.value();
        self.pressed.contains(&digit)
    }
}

/// Something that may stand for a key of the keypad.
pub trait MapKey {
    /// The key that `self` stands for, if it stands for one.
    fn map_key(&self) -> Option<Key>;
}

/// A number stands for the key that carries it as its digit.
impl MapKey for u8 {
    fn map_key(&self) -> (key: Option<Key>)
        ensures
            match key {
                Some(key) => key.digit() == *self,
                None => *self > 0xF,
            },
    {
        match *self {
            0x0 => Some(Key::D0),
            0x1 => Some(Key::D1),
            0x2 => Some(Key::D2),
            0x3 => Some(Key::D3),
            0x4 => Some(Key::D4),
            0x5 => Some(Key::D5),
            0x6 => Some(Key::D6),
            0x7 => Some(Key::D7),
            0x8 => Some(Key::D8),
            0x9 => Some(Key::D9),
            0xA => Some(Key::A),
            0xB => Some(Key::B),
            0xC => Some(Key::C),
            0xD => Some(Key::D),
            0xE => Some(Key::E),
            0xF => Some(Key::F),
            _ => None,
        }
    }
}

/// The keys of a keyboard that stand for the keypad's keys, by the
/// characters they type and in the order of the keypad's digits: the block
/// `1234`, `qwer`, `asdf`, `zxcv` at the left of a keyboard is the keypad's
/// `123C`, `456D`, `789E`, `A0BF`.
pub const KEYBOARD: [char; 16] = [
    'x',
    '1',
    '2',
    '3',
    'q',
    'w',
    'e',
    'a',
    's',
    'd',
    'z',
    'c',
    '4',
    'r',
    'f',
    'v',
];

/// A character stands for the key at whose place in `KEYBOARD` it is found.
impl MapKey for char {
    fn map_key(&self) -> (key: Option<Key>)
        ensures
            match key {
                Some(key) => KEYBOARD[key.digit() as int] == *self,
                None => forall|digit: int| 0 <= digit < 16 ==> KEYBOARD[digit] != *self,
            },
    {
        let mut digit: u8 = 0;
        while digit < 16
            invariant
                digit <= 16,
                forall|earlier: int| 0 <= earlier < digit ==> KEYBOARD[earlier] != *self,
            decreases 16 - digit,
        {
            if KEYBOARD[digit as usize] == *self {
                return digit.map_key();
            }
            digit += 1;
        }
        None
    }
}

} // verus!
