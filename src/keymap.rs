use vstd::prelude::*;

use crate::keyboard::{
    Key, dvorak_char, dvorak_twin, lemma_dvorak_injective, lemma_qwerty_injective,
    lemma_same_characters, qwerty_char, qwerty_twin,
};

verus! {

/// A key press as the typing logic sees it: a character, or one of the few
/// control keys that it reacts to.
#[derive(Clone, Copy, Debug, PartialEq, Eq, Structural)]
pub enum KeyCode {
    Char(char),
    Backspace,
    Enter,
    Esc,
    /// Any other key, which types nothing.
    Other,
}

/// The character that a key typing `c` on QWERTY types on Dvorak, in the same
/// shift state. A character that no key types passes through unchanged.
pub open spec fn remap_char(c: char) -> char {
    if exists|k: Key, s: bool| qwerty_char(k, s) == c {
        let (k, s) = choose|k: Key, s: bool| qwerty_char(k, s) == c;
        dvorak_char(k, s)
    } else {
        c
    }
}

/// The event that a press of the same physical key gives on Dvorak.
pub open spec fn remap(code: KeyCode) -> KeyCode {
    match code {
        KeyCode::Char(c) => KeyCode::Char(remap_char(c)),
        _ => code,
    }
}

/// The key, and its shift state, that types `c` on QWERTY.
fn qwerty_key(c: char) -> (r: Option<(Key, bool)>)
    ensures
        match r {
            Some((k, s)) => qwerty_char(k, s) == c,
            None => forall|k: Key, s: bool| qwerty_char(k, s) != c,
        },
{
    match c {
        '`' => Some((Key::BackTick, false)),
        '~' => Some((Key::BackTick, true)),
        '1' => Some((Key::One, false)),
        '!' => Some((Key::One, true)),
        '2' => Some((Key::Two, false)),
        '@' => Some((Key::Two, true)),
        '3' => Some((Key::Three, false)),
        '#' => Some((Key::Three, true)),
        '4' => Some((Key::Four, false)),
        '$' => Some((Key::Four, true)),
        '5' => Some((Key::Five, false)),
        '%' => Some((Key::Five, true)),
        '6' => Some((Key::Six, false)),
        '^' => Some((Key::Six, true)),
        '7' => Some((Key::Seven, false)),
        '&' => Some((Key::Seven, true)),
        '8' => Some((Key::Eight, false)),
        '*' => Some((Key::Eight, true)),
        '9' => Some((Key::Nine, false)),
        '(' => Some((Key::Nine, true)),
        '0' => Some((Key::Zero, false)),
        ')' => Some((Key::Zero, true)),
        '-' => Some((Key::OpenBracket, false)),
        '_' => Some((Key::OpenBracket, true)),
        '=' => Some((Key::CloseBracket, false)),
        '+' => Some((Key::CloseBracket, true)),
        'q' => Some((Key::Quote, false)),
        'Q' => Some((Key::Quote, true)),
        'w' => Some((Key::Comma, false)),
        'W' => Some((Key::Comma, true)),
        'e' => Some((Key::Period, false)),
        'E' => Some((Key::Period, true)),
        'r' => Some((Key::P, false)),
        'R' => Some((Key::P, true)),
        't' => Some((Key::Y, false)),
        'T' => Some((Key::Y, true)),
        'y' => Some((Key::F, false)),
        'Y' => Some((Key::F, true)),
        'u' => Some((Key::G, false)),
        'U' => Some((Key::G, true)),
        'i' => Some((Key::C, false)),
        'I' => Some((Key::C, true)),
        'o' => Some((Key::R, false)),
        'O' => Some((Key::R, true)),
        'p' => Some((Key::L, false)),
        'P' => Some((Key::L, true)),
        '[' => Some((Key::ForwardSlash, false)),
        '{' => Some((Key::ForwardSlash, true)),
        ']' => Some((Key::Equal, false)),
        '}' => Some((Key::Equal, true)),
        '\\' => Some((Key::BackSlash, false)),
        '|' => Some((Key::BackSlash, true)),
        'a' => Some((Key::A, false)),
        'A' => Some((Key::A, true)),
        's' => Some((Key::O, false)),
        'S' => Some((Key::O, true)),
        'd' => Some((Key::E, false)),
        'D' => Some((Key::E, true)),
        'f' => Some((Key::U, false)),
        'F' => Some((Key::U, true)),
        'g' => Some((Key::I, false)),
        'G' => Some((Key::I, true)),
        'h' => Some((Key::D, false)),
        'H' => Some((Key::D, true)),
        'j' => Some((Key::H, false)),
        'J' => Some((Key::H, true)),
        'k' => Some((Key::T, false)),
        'K' => Some((Key::T, true)),
        'l' => Some((Key::N, false)),
        'L' => Some((Key::N, true)),
        ';' => Some((Key::S, false)),
        ':' => Some((Key::S, true)),
        '\'' => Some((Key::Dash, false)),
        '"' => Some((Key::Dash, true)),
        'z' => Some((Key::Semicolon, false)),
        'Z' => Some((Key::Semicolon, true)),
        'x' => Some((Key::Q, false)),
        'X' => Some((Key::Q, true)),
        'c' => Some((Key::J, false)),
        'C' => Some((Key::J, true)),
        'v' => Some((Key::K, false)),
        'V' => Some((Key::K, true)),
        'b' => Some((Key::X, false)),
        'B' => Some((Key::X, true)),
        'n' => Some((Key::B, false)),
        'N' => Some((Key::B, true)),
        'm' => Some((Key::M, false)),
        'M' => Some((Key::M, true)),
        ',' => Some((Key::W, false)),
        '<' => Some((Key::W, true)),
        '.' => Some((Key::V, false)),
        '>' => Some((Key::V, true)),
        '/' => Some((Key::Z, false)),
        '?' => Some((Key::Z, true)),
        _ => None,
    }
}

/// Maps a key press made on a QWERTY keyboard to the Dvorak event of the
/// same physical key. Characters that no key types, and keys that type no
/// character, pass through unchanged.
pub fn qwerty_to_dvorak(code: KeyCode) -> (r: KeyCode)
    ensures
        r == remap(code),
{
    match code {
        KeyCode::Char(c) => match qwerty_key(c) {
            Some((k, s)) => {
                proof {
                    let (k2, s2) = choose|k2: Key, s2: bool| qwerty_char(k2, s2) == c;
                    lemma_qwerty_injective(k, s, k2, s2);
                }
                KeyCode::Char(k.glyph(s))
            },
            None => KeyCode::Char(c),
        },
        _ => code,
    }
}

/// The remapping is positional: what a key types on QWERTY becomes what the
/// same key, in the same shift state, types on Dvorak.
pub proof fn lemma_remap_positional(k: Key, shifted: bool)
    ensures
        remap_char(qwerty_char(k, shifted)) == dvorak_char(k, shifted),
{
    let c = qwerty_char(k, shifted);
    let (k2, s2) = choose|k2: Key, s2: bool| qwerty_char(k2, s2) == c;
    lemma_qwerty_injective(k, shifted, k2, s2);
}

/// No two characters are remapped to the same one.
pub proof fn lemma_remap_injective(a: char, b: char)
    requires
        remap_char(a) == remap_char(b),
    ensures
        a == b,
{
    let mapped_a = exists|k: Key, s: bool| qwerty_char(k, s) == a;
    let mapped_b = exists|k: Key, s: bool| qwerty_char(k, s) == b;
    if mapped_a {
        let (ka, sa) = choose|k: Key, s: bool| qwerty_char(k, s) == a;
        lemma_remap_positional(ka, sa);
        if mapped_b {
            let (kb, sb) = choose|k: Key, s: bool| qwerty_char(k, s) == b;
            lemma_remap_positional(kb, sb);
            lemma_dvorak_injective(ka, sa, kb, sb);
        } else {
            lemma_same_characters(ka, sa);
            assert(qwerty_char(qwerty_twin(ka), sa) == b);
        }
    } else if mapped_b {
        let (kb, sb) = choose|k: Key, s: bool| qwerty_char(k, s) == b;
        lemma_remap_positional(kb, sb);
        lemma_same_characters(kb, sb);
        assert(qwerty_char(qwerty_twin(kb), sb) == a);
    }
}

/// Every character is the remapping of some character: what a Dvorak key
/// types comes from the same key on QWERTY, and any other character from
/// itself. With injectivity, the remapping is a bijection.
pub proof fn lemma_remap_surjective(c: char)
    ensures
        exists|a: char| remap_char(a) == c,
{
    if exists|k: Key, s: bool| dvorak_char(k, s) == c {
        let (k, s) = choose|k: Key, s: bool| dvorak_char(k, s) == c;
        lemma_remap_positional(k, s);
        assert(remap_char(qwerty_char(k, s)) == c);
    } else {
        if exists|k: Key, s: bool| qwerty_char(k, s) == c {
            let (k, s) = choose|k: Key, s: bool| qwerty_char(k, s) == c;
            lemma_same_characters(k, s);
            assert(dvorak_char(dvorak_twin(k), s) == c);
        }
        assert(remap_char(c) == c);
    }
}

} // verus!
