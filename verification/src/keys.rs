//! Hotkeys: the keys that can be bound, their virtual-key codes, the names the
//! window shows for them, and capturing a new binding from key presses.

use vstd::prelude::*;
use crate::config::AppConfig;
use crate::text::{decimal, decimal_string, digit_char, digit_str};

verus! {

/// A key on the keyboard, as far as binding is concerned: the letters, the
/// digit row, the function keys, space and tab; every other key is `Other`.
#[derive(Clone, Copy, Debug, PartialEq, Eq, Structural)]
pub enum KeyCode {
    A,
    B,
    C,
    D,
    E,
    F,
    G,
    H,
    I,
    J,
    K,
    L,
    M,
    N,
    O,
    P,
    Q,
    R,
    S,
    T,
    U,
    V,
    W,
    X,
    Y,
    Z,
    Num0,
    Num1,
    Num2,
    Num3,
    Num4,
    Num5,
    Num6,
    Num7,
    Num8,
    Num9,
    F1,
    F2,
    F3,
    F4,
    F5,
    F6,
    F7,
    F8,
    F9,
    F10,
    F11,
    F12,
    Space,
    Tab,
    Other,
}

/// The Windows virtual-key code of a bindable key; `None` for other keys.
pub open spec fn vk_of_key(key: KeyCode) -> Option<u16> {
    match key {
        KeyCode::A => Some(65),
        KeyCode::B => Some(66),
        KeyCode::C => Some(67),
        KeyCode::D => Some(68),
        KeyCode::E => Some(69),
        KeyCode::F => Some(70),
        KeyCode::G => Some(71),
        KeyCode::H => Some(72),
        KeyCode::I => Some(73),
        KeyCode::J => Some(74),
        KeyCode::K => Some(75),
        KeyCode::L => Some(76),
        KeyCode::M => Some(77),
        KeyCode::N => Some(78),
        KeyCode::O => Some(79),
        KeyCode::P => Some(80),
        KeyCode::Q => Some(81),
        KeyCode::R => Some(82),
        KeyCode::S => Some(83),
        KeyCode::T => Some(84),
        KeyCode::U => Some(85),
        KeyCode::V => Some(86),
        KeyCode::W => Some(87),
        KeyCode::X => Some(88),
        KeyCode::Y => Some(89),
        KeyCode::Z => Some(90),
        KeyCode::Num0 => Some(48),
        KeyCode::Num1 => Some(49),
        KeyCode::Num2 => Some(50),
        KeyCode::Num3 => Some(51),
        KeyCode::Num4 => Some(52),
        KeyCode::Num5 => Some(53),
        KeyCode::Num6 => Some(54),
        KeyCode::Num7 => Some(55),
        KeyCode::Num8 => Some(56),
        KeyCode::Num9 => Some(57),
        KeyCode::F1 => Some(112),
        KeyCode::F2 => Some(113),
        KeyCode::F3 => Some(114),
        KeyCode::F4 => Some(115),
        KeyCode::F5 => Some(116),
        KeyCode::F6 => Some(117),
        KeyCode::F7 => Some(118),
        KeyCode::F8 => Some(119),
        KeyCode::F9 => Some(120),
        KeyCode::F10 => Some(121),
        KeyCode::F11 => Some(122),
        KeyCode::F12 => Some(123),
        KeyCode::Space => Some(32),
        KeyCode::Tab => Some(9),
        KeyCode::Other => None,
    }
}

/// The name under which a bindable key is shown.
pub open spec fn key_label(key: KeyCode) -> Seq<char> {
    match key {
        KeyCode::A => "A"@,
        KeyCode::B => "B"@,
        KeyCode::C => "C"@,
        KeyCode::D => "D"@,
        KeyCode::E => "E"@,
        KeyCode::F => "F"@,
        KeyCode::G => "G"@,
        KeyCode::H => "H"@,
        KeyCode::I => "I"@,
        KeyCode::J => "J"@,
        KeyCode::K => "K"@,
        KeyCode::L => "L"@,
        KeyCode::M => "M"@,
        KeyCode::N => "N"@,
        KeyCode::O => "O"@,
        KeyCode::P => "P"@,
        KeyCode::Q => "Q"@,
        KeyCode::R => "R"@,
        KeyCode::S => "S"@,
        KeyCode::T => "T"@,
        KeyCode::U => "U"@,
        KeyCode::V => "V"@,
        KeyCode::W => "W"@,
        KeyCode::X => "X"@,
        KeyCode::Y => "Y"@,
        KeyCode::Z => "Z"@,
        KeyCode::Num0 => "0"@,
        KeyCode::Num1 => "1"@,
        KeyCode::Num2 => "2"@,
        KeyCode::Num3 => "3"@,
        KeyCode::Num4 => "4"@,
        KeyCode::Num5 => "5"@,
        KeyCode::Num6 => "6"@,
        KeyCode::Num7 => "7"@,
        KeyCode::Num8 => "8"@,
        KeyCode::Num9 => "9"@,
        KeyCode::F1 => "F1"@,
        KeyCode::F2 => "F2"@,
        KeyCode::F3 => "F3"@,
        KeyCode::F4 => "F4"@,
        KeyCode::F5 => "F5"@,
        KeyCode::F6 => "F6"@,
        KeyCode::F7 => "F7"@,
        KeyCode::F8 => "F8"@,
        KeyCode::F9 => "F9"@,
        KeyCode::F10 => "F10"@,
        KeyCode::F11 => "F11"@,
        KeyCode::F12 => "F12"@,
        KeyCode::Space => "SPACE"@,
        KeyCode::Tab => "TAB"@,
        KeyCode::Other => Seq::empty(),
    }
}

/// The character of a capital letter, counted from `A`.
pub open spec fn letter_char(i: nat) -> char {
    (65 + i) as char
}

/// The name shown for a virtual-key code: `SPACE`, `TAB`, `F1` to `F12`, the
/// digit or capital letter itself, or `VK` and the code in decimal.
pub open spec fn vk_label(vk: u16) -> Seq<char> {
    if vk == 0x20 {
        "SPACE"@
    } else if vk == 0x09 {
        "TAB"@
    } else if 0x70 <= vk <= 0x7B {
        "F"@ + decimal((vk - 0x6F) as nat)
    } else if 48 <= vk <= 57 {
        seq![digit_char((vk - 48) as nat)]
    } else if 65 <= vk <= 90 {
        seq![letter_char((vk - 65) as nat)]
    } else {
        "VK "@ + decimal(vk as nat)
    }
}

pub fn key_to_vk(key: KeyCode) -> (vk: Option<u16>)
    ensures
        vk == vk_of_key(key),
{
    match key {
        KeyCode::A => Some(65),
        KeyCode::B => Some(66),
        KeyCode::C => Some(67),
        KeyCode::D => Some(68),
        KeyCode::E => Some(69),
        KeyCode::F => Some(70),
        KeyCode::G => Some(71),
        KeyCode::H => Some(72),
        KeyCode::I => Some(73),
        KeyCode::J => Some(74),
        KeyCode::K => Some(75),
        KeyCode::L => Some(76),
        KeyCode::M => Some(77),
        KeyCode::N => Some(78),
        KeyCode::O => Some(79),
        KeyCode::P => Some(80),
        KeyCode::Q => Some(81),
        KeyCode::R => Some(82),
        KeyCode::S => Some(83),
        KeyCode::T => Some(84),
        KeyCode::U => Some(85),
        KeyCode::V => Some(86),
        KeyCode::W => Some(87),
        KeyCode::X => Some(88),
        KeyCode::Y => Some(89),
        KeyCode::Z => Some(90),
        KeyCode::Num0 => Some(48),
        KeyCode::Num1 => Some(49),
        KeyCode::Num2 => Some(50),
        KeyCode::Num3 => Some(51),
        KeyCode::Num4 => Some(52),
        KeyCode::Num5 => Some(53),
        KeyCode::Num6 => Some(54),
        KeyCode::Num7 => Some(55),
        KeyCode::Num8 => Some(56),
        KeyCode::Num9 => Some(57),
        KeyCode::F1 => Some(112),
        KeyCode::F2 => Some(113),
        KeyCode::F3 => Some(114),
        KeyCode::F4 => Some(115),
        KeyCode::F5 => Some(116),
        KeyCode::F6 => Some(117),
        KeyCode::F7 => Some(118),
        KeyCode::F8 => Some(119),
        KeyCode::F9 => Some(120),
        KeyCode::F10 => Some(121),
        KeyCode::F11 => Some(122),
        KeyCode::F12 => Some(123),
        KeyCode::Space => Some(32),
        KeyCode::Tab => Some(9),
        KeyCode::Other => None,
    }
}

fn letter_str(i: u16) -> (s: &'static str)
    requires
        i < 26,
    ensures
        s@ == seq![letter_char(i as nat)],
{
    match i {
        0 => {
            proof {
                reveal_strlit("A");
            }
            "A"
        },
        1 => {
            proof {
                reveal_strlit("B");
            }
            "B"
        },
        2 => {
            proof {
                reveal_strlit("C");
            }
            "C"
        },
        3 => {
            proof {
                reveal_strlit("D");
            }
            "D"
        },
        4 => {
            proof {
                reveal_strlit("E");
            }
            "E"
        },
        5 => {
            proof {
                reveal_strlit("F");
            }
            "F"
        },
        6 => {
            proof {
                reveal_strlit("G");
            }
            "G"
        },
        7 => {
            proof {
                reveal_strlit("H");
            }
            "H"
        },
        8 => {
            proof {
                reveal_strlit("I");
            }
            "I"
        },
        9 => {
            proof {
                reveal_strlit("J");
            }
            "J"
        },
        10 => {
            proof {
                reveal_strlit("K");
            }
            "K"
        },
        11 => {
            proof {
                reveal_strlit("L");
            }
            "L"
        },
        12 => {
            proof {
                reveal_strlit("M");
            }
            "M"
        },
        13 => {
            proof {
                reveal_strlit("N");
            }
            "N"
        },
        14 => {
            proof {
                reveal_strlit("O");
            }
            "O"
        },
        15 => {
            proof {
                reveal_strlit("P");
            }
            "P"
        },
        16 => {
            proof {
                reveal_strlit("Q");
            }
            "Q"
        },
        17 => {
            proof {
                reveal_strlit("R");
            }
            "R"
        },
        18 => {
            proof {
                reveal_strlit("S");
            }
            "S"
        },
        19 => {
            proof {
                reveal_strlit("T");
            }
            "T"
        },
        20 => {
            proof {
                reveal_strlit("U");
            }
            "U"
        },
        21 => {
            proof {
                reveal_strlit("V");
            }
            "V"
        },
        22 => {
            proof {
                reveal_strlit("W");
            }
            "W"
        },
        23 => {
            proof {
                reveal_strlit("X");
            }
            "X"
        },
        24 => {
            proof {
                reveal_strlit("Y");
            }
            "Y"
        },
        _ => {
            proof {
                reveal_strlit("Z");
            }
            "Z"
        },
    }
}

pub fn vk_name(vk: u16) -> (name: String)
    ensures
        name@ == vk_label(vk),
{
    if vk == 0x20 {
        String::from_str("SPACE")
    } else if vk == 0x09 {
        String::from_str("TAB")
    } else if 0x70 <= vk && vk <= 0x7B {
        let mut name = String::from_str("F");
        let number = decimal_string((vk - 0x6F) as u64);
        name.append(number.as_str());
        name
    } else if 48 <= vk && vk <= 57 {
        String::from_str(digit_str((vk - 48) as u64))
    } else if 65 <= vk && vk <= 90 {
        String::from_str(letter_str(vk - 65))
    } else {
        let mut name = String::from_str("VK ");
        let number = decimal_string(vk as u64);
        name.append(number.as_str());
        name
    }
}

/// Every bindable key shows under its own name once bound: the name of its
/// code is the key's name.
pub proof fn law_bound_key_shows_its_name(key: KeyCode)
    requires
        vk_of_key(key) is Some,
    ensures
        vk_label(vk_of_key(key)->Some_0) == key_label(key),
{
    reveal_strlit("SPACE");
    reveal_strlit("TAB");
    reveal_strlit("F");
    reveal_with_fuel(decimal, 2);
    match key {
        KeyCode::A => {
            reveal_strlit("A");
        },
        KeyCode::B => {
            reveal_strlit("B");
        },
        KeyCode::C => {
            reveal_strlit("C");
        },
        KeyCode::D => {
            reveal_strlit("D");
        },
        KeyCode::E => {
            reveal_strlit("E");
        },
        KeyCode::F => {
            reveal_strlit("F");
        },
        KeyCode::G => {
            reveal_strlit("G");
        },
        KeyCode::H => {
            reveal_strlit("H");
        },
        KeyCode::I => {
            reveal_strlit("I");
        },
        KeyCode::J => {
            reveal_strlit("J");
        },
        KeyCode::K => {
            reveal_strlit("K");
        },
        KeyCode::L => {
            reveal_strlit("L");
        },
        KeyCode::M => {
            reveal_strlit("M");
        },
        KeyCode::N => {
            reveal_strlit("N");
        },
        KeyCode::O => {
            reveal_strlit("O");
        },
        KeyCode::P => {
            reveal_strlit("P");
        },
        KeyCode::Q => {
            reveal_strlit("Q");
        },
        KeyCode::R => {
            reveal_strlit("R");
        },
        KeyCode::S => {
            reveal_strlit("S");
        },
        KeyCode::T => {
            reveal_strlit("T");
        },
        KeyCode::U => {
            reveal_strlit("U");
        },
        KeyCode::V => {
            reveal_strlit("V");
        },
        KeyCode::W => {
            reveal_strlit("W");
        },
        KeyCode::X => {
            reveal_strlit("X");
        },
        KeyCode::Y => {
            reveal_strlit("Y");
        },
        KeyCode::Z => {
            reveal_strlit("Z");
        },
        KeyCode::Num0 => {
            reveal_strlit("0");
        },
        KeyCode::Num1 => {
            reveal_strlit("1");
        },
        KeyCode::Num2 => {
            reveal_strlit("2");
        },
        KeyCode::Num3 => {
            reveal_strlit("3");
        },
        KeyCode::Num4 => {
            reveal_strlit("4");
        },
        KeyCode::Num5 => {
            reveal_strlit("5");
        },
        KeyCode::Num6 => {
            reveal_strlit("6");
        },
        KeyCode::Num7 => {
            reveal_strlit("7");
        },
        KeyCode::Num8 => {
            reveal_strlit("8");
        },
        KeyCode::Num9 => {
            reveal_strlit("9");
        },
        KeyCode::F1 => {
            reveal_strlit("F1");
        },
        KeyCode::F2 => {
            reveal_strlit("F2");
        },
        KeyCode::F3 => {
            reveal_strlit("F3");
        },
        KeyCode::F4 => {
            reveal_strlit("F4");
        },
        KeyCode::F5 => {
            reveal_strlit("F5");
        },
        KeyCode::F6 => {
            reveal_strlit("F6");
        },
        KeyCode::F7 => {
            reveal_strlit("F7");
        },
        KeyCode::F8 => {
            reveal_strlit("F8");
        },
        KeyCode::F9 => {
            reveal_strlit("F9");
        },
        KeyCode::F10 => {
            reveal_strlit("F10");
        },
        KeyCode::F11 => {
            reveal_strlit("F11");
        },
        KeyCode::F12 => {
            reveal_strlit("F12");
        },
        KeyCode::Space => {
            reveal_strlit("SPACE");
        },
        KeyCode::Tab => {
            reveal_strlit("TAB");
        },
        KeyCode::Other => {},
    }
}

/// Distinct bindable keys have distinct codes.
pub proof fn law_key_codes_distinct(a: KeyCode, b: KeyCode)
    requires
        vk_of_key(a) is Some,
        vk_of_key(a) == vk_of_key(b),
    ensures
        a == b,
{
}

/// One input event of the window, as far as capturing a binding is concerned.
#[derive(Clone, Copy, Debug, PartialEq, Eq)]
pub enum InputEvent {
    /// A key changed state; `repeat` marks presses that the keyboard repeats.
    Key { key: KeyCode, pressed: bool, repeat: bool },
    /// Any other event.
    Other,
}

/// The code of the key that an event binds: a fresh (not repeated) press of a
/// bindable key.
pub open spec fn bound_by(event: InputEvent) -> Option<u16> {
    match event {
        InputEvent::Key { key, pressed, repeat } => if pressed && !repeat {
            vk_of_key(key)
        } else {
            None
        },
        InputEvent::Other => None,
    }
}

/// The code of the first event in `events` that binds a key, if any.
pub open spec fn first_binding(events: Seq<InputEvent>) -> Option<u16>
    decreases events.len(),
{
    if events.len() == 0 {
        None
    } else if bound_by(events[0]) is Some {
        bound_by(events[0])
    } else {
        first_binding(events.drop_first())
    }
}

/// While the window waits for a new binding, the first fresh press of a
/// bindable key among this frame's events becomes the hotkey and ends the
/// wait. Returns whether a key was captured; nothing changes otherwise.
pub fn capture_bind_key(waiting: &mut bool, config: &mut AppConfig, events: &Vec<InputEvent>) -> (captured: bool)
    ensures
        captured == (*old(waiting) && first_binding(events@) is Some),
        captured ==> *final(config) == (AppConfig { bind_vk: first_binding(events@)->Some_0, ..*old(config) }),
        captured ==> !*final(waiting),
        !captured ==> *final(config) == *old(config) && *final(waiting) == *old(waiting),
{
    if !*waiting {
        return false;
    }
    let mut i: usize = 0;
    assert(events@.subrange(0, events@.len() as int) =~= events@);
    while i < events.len()
        invariant
            0 <= i <= events@.len(),
            *old(waiting),
            *waiting == *old(waiting),
            *config == *old(config),
            first_binding(events@) == first_binding(events@.subrange(i as int, events@.len() as int)),
        decreases events@.len() - i,
    {
        let event = events[i];
        let candidate = match event {
            InputEvent::Key { key, pressed, repeat } => if pressed && !repeat {
                key_to_vk(key)
            } else {
                None
            },
            InputEvent::Other => None,
        };
        let ghost rest = events@.subrange(i as int, events@.len() as int);
        assert(rest[0] == event);
        assert(candidate == bound_by(event));
        assert(rest.drop_first() =~= events@.subrange(i + 1, events@.len() as int));
        match candidate {
            Some(vk) => {
                config.bind_vk = vk;
                *waiting = false;
                return true;
            },
            None => {},
        }
        i = i + 1;
    }
    assert(events@.subrange(i as int, events@.len() as int) =~= Seq::<InputEvent>::empty());
    false
}

/// The text in the bind box: a prompt while waiting for a key, else the name
/// of the bound key.
pub fn bind_label(waiting_for_bind: bool, bind_vk: u16) -> (text: String)
    ensures
        waiting_for_bind ==> text@ == "PRESS KEY..."@,
        !waiting_for_bind ==> text@ == vk_label(bind_vk),
{
    if waiting_for_bind {
        String::from_str("PRESS KEY...")
    } else {
        vk_name(bind_vk)
    }
}

/// Digit and letter codes are the characters they stand for: the code of each
/// of `0`..`9` and `A`..`Z` in the Windows table is that character's ASCII
/// code, and the name shown for it is that character.
pub proof fn law_alphanumeric_codes_are_ascii(vk: u16)
    requires
        48 <= vk <= 57 || 65 <= vk <= 90,
    ensures
        vk_label(vk) == seq![(vk as u32) as char],
{
}

/// A digit or letter key binds the ASCII code of the character it is named
/// by: a key whose name is one character `c` maps to the code `c as u16`,
/// which is shown as `c` again.
pub proof fn law_alphanumeric_keys_bind_their_character(key: KeyCode)
    requires
        vk_of_key(key) is Some,
        key_label(key).len() == 1,
    ensures
        vk_of_key(key)->Some_0 as u32 == key_label(key)[0] as u32,
        (48 <= vk_of_key(key)->Some_0 <= 57 || 65 <= vk_of_key(key)->Some_0 <= 90),
        vk_label(vk_of_key(key)->Some_0) == key_label(key),
{
    reveal_strlit("SPACE");
    reveal_strlit("TAB");
    reveal_strlit("F");
    match key {
        KeyCode::A => {
            reveal_strlit("A");
        },
        KeyCode::B => {
            reveal_strlit("B");
        },
        KeyCode::C => {
            reveal_strlit("C");
        },
        KeyCode::D => {
            reveal_strlit("D");
        },
        KeyCode::E => {
            reveal_strlit("E");
        },
        KeyCode::F => {
            reveal_strlit("F");
        },
        KeyCode::G => {
            reveal_strlit("G");
        },
        KeyCode::H => {
            reveal_strlit("H");
        },
        KeyCode::I => {
            reveal_strlit("I");
        },
        KeyCode::J => {
            reveal_strlit("J");
        },
        KeyCode::K => {
            reveal_strlit("K");
        },
        KeyCode::L => {
            reveal_strlit("L");
        },
        KeyCode::M => {
            reveal_strlit("M");
        },
        KeyCode::N => {
            reveal_strlit("N");
        },
        KeyCode::O => {
            reveal_strlit("O");
        },
        KeyCode::P => {
            reveal_strlit("P");
        },
        KeyCode::Q => {
            reveal_strlit("Q");
        },
        KeyCode::R => {
            reveal_strlit("R");
        },
        KeyCode::S => {
            reveal_strlit("S");
        },
        KeyCode::T => {
            reveal_strlit("T");
        },
        KeyCode::U => {
            reveal_strlit("U");
        },
        KeyCode::V => {
            reveal_strlit("V");
        },
        KeyCode::W => {
            reveal_strlit("W");
        },
        KeyCode::X => {
            reveal_strlit("X");
        },
        KeyCode::Y => {
            reveal_strlit("Y");
        },
        KeyCode::Z => {
            reveal_strlit("Z");
        },
        KeyCode::Num0 => {
            reveal_strlit("0");
        },
        KeyCode::Num1 => {
            reveal_strlit("1");
        },
        KeyCode::Num2 => {
            reveal_strlit("2");
        },
        KeyCode::Num3 => {
            reveal_strlit("3");
        },
        KeyCode::Num4 => {
            reveal_strlit("4");
        },
        KeyCode::Num5 => {
            reveal_strlit("5");
        },
        KeyCode::Num6 => {
            reveal_strlit("6");
        },
        KeyCode::Num7 => {
            reveal_strlit("7");
        },
        KeyCode::Num8 => {
            reveal_strlit("8");
        },
        KeyCode::Num9 => {
            reveal_strlit("9");
        },
        _ => {
            law_bound_key_shows_its_name(key);
        },
    }
}

} // verus!
