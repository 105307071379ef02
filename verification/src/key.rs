//! The keys that the stage tells apart, and the letter that each one types.

use vstd::prelude::*;

verus! {

/// A key of the keyboard. Every key that is neither a letter, the space bar
/// nor the enter key is `Other`.
#[derive(Clone, Copy, Debug, PartialEq, Eq, Structural)]
pub enum Key {
    A,
    B,
    C,
    D,
    E,
    F,
    G,
    H,
    I,
    J,
    K,
    L,
    M,
    N,
    O,
    P,
    Q,
    R,
    S,
    T,
    U,
    V,
    W,
    X,
    Y,
    Z,
    Space,
    Enter,
    Other,
}

impl Key {
    /// The upper-case letter printed on a letter key; `None` for every other key.
    pub open spec fn upper(self) -> Option<char> {
        match self {
            Key::A => Some('A'),
            Key::B => Some('B'),
            Key::C => Some('C'),
            Key::D => Some('D'),
            Key::E => Some('E'),
            Key::F => Some('F'),
            Key::G => Some('G'),
            Key::H => Some('H'),
            Key::I => Some('I'),
            Key::J => Some('J'),
            Key::K => Some('K'),
            Key::L => Some('L'),
            Key::M => Some('M'),
            Key::N => Some('N'),
            Key::O => Some('O'),
            Key::P => Some('P'),
            Key::Q => Some('Q'),
            Key::R => Some('R'),
            Key::S => Some('S'),
            Key::T => Some('T'),
            Key::U => Some('U'),
            Key::V => Some('V'),
            Key::W => Some('W'),
            Key::X => Some('X'),
            Key::Y => Some('Y'),
            Key::Z => Some('Z'),
            _ => None,
        }
    }

    /// Whether this is one of the twenty-six letter keys.
    pub open spec fn is_letter(self) -> bool {
        self.upper() is Some
    }

    /// The lower-case form of an upper-case ASCII letter: thirty-two code
    /// points further on.
    pub open spec fn lower_of(upper: char) -> char {
        (upper as u32 + 32) as char
    }

    /// The lower-case letter of a letter key; `None` for every other key.
    pub open spec fn lower(self) -> Option<char> {
        match self.upper() {
            Some(c) => Some(Self::lower_of(c)),
            None => None,
        }
    }

    /// The character that a press of this key selects: with shift held the
    /// lower-case letter, without it the upper-case one.
    pub open spec fn typed(self, shift: bool) -> Option<char> {
        if shift {
            self.lower()
        } else {
            self.upper()
        }
    }

    /// The place of a letter key in the alphabet, counted from zero.
    pub fn alphabet_index(self) -> (r: Option<u8>)
        ensures
            r is Some <==> self.is_letter(),
            r matches Some(i) ==> i < 26 && self.upper() == Some(('A' as u8 + i) as char),
    {
        match self {
            Key::A => Some(0u8),
            Key::B => Some(1u8),
            Key::C => Some(2u8),
            Key::D => Some(3u8),
            Key::E => Some(4u8),
            Key::F => Some(5u8),
            Key::G => Some(6u8),
            Key::H => Some(7u8),
            Key::I => Some(8u8),
            Key::J => Some(9u8),
            Key::K => Some(10u8),
            Key::L => Some(11u8),
            Key::M => Some(12u8),
            Key::N => Some(13u8),
            Key::O => Some(14u8),
            Key::P => Some(15u8),
            Key::Q => Some(16u8),
            Key::R => Some(17u8),
            Key::S => Some(18u8),
            Key::T => Some(19u8),
            Key::U => Some(20u8),
            Key::V => Some(21u8),
            Key::W => Some(22u8),
            Key::X => Some(23u8),
            Key::Y => Some(24u8),
            Key::Z => Some(25u8),
            _ => None,
        }
    }

    /// The character that a press of this key selects, if it is a letter key.
    pub fn letter(self, shift: bool) -> (r: Option<char>)
        ensures
            r == self.typed(shift),
    {
        match self.alphabet_index() {
            Some(i) => {
                let base: u8 = if shift { 97u8 } else { 65u8 };
                Some((base + i) as char)
            },
            None => None,
        }
    }
}

/// Every letter key types a letter of the ASCII alphabet: an upper-case one
/// without shift and the matching lower-case one with shift.
pub proof fn law_letter_case(key: Key)
    requires
        key.is_letter(),
    ensures
        key.typed(false) == key.upper(),
        key.typed(true) == key.lower(),
        'A' <= key.upper().unwrap() <= 'Z',
        'a' <= key.lower().unwrap() <= 'z',
        key.lower().unwrap() as int == key.upper().unwrap() as int + 32,
{
}

/// Two letter keys that type the same character are the same key.
pub proof fn law_letters_distinct(a: Key, b: Key, shift: bool)
    requires
        a.is_letter(),
        b.is_letter(),
        a.typed(shift) == b.typed(shift),
    ensures
        a == b,
{
}

} // verus!
