use vstd::prelude::*;

use crate::keymap::KeyCode;

verus! {

/// A physical key of the main block, named by its Dvorak legend and
/// independent of the shift state.
#[derive(Clone, Copy, Debug, PartialEq, Eq, Structural)]
pub enum Key {
    BackTick,
    One,
    Two,
    Three,
    Four,
    Five,
    Six,
    Seven,
    Eight,
    Nine,
    Zero,
    OpenBracket,
    CloseBracket,
    Quote,
    Comma,
    Period,
    P,
    Y,
    F,
    G,
    C,
    R,
    L,
    ForwardSlash,
    Equal,
    BackSlash,
    A,
    O,
    E,
    U,
    I,
    D,
    H,
    T,
    N,
    S,
    Dash,
    Semicolon,
    Q,
    J,
    K,
    X,
    B,
    M,
    W,
    V,
    Z,
}

/// The character that key `k` types on the Dvorak layout, shifted or not.
pub open spec fn dvorak_char(k: Key, shifted: bool) -> char {
    match k {
        Key::BackTick => if shifted { '~' } else { '`' },
        Key::One => if shifted { '!' } else { '1' },
        Key::Two => if shifted { '@' } else { '2' },
        Key::Three => if shifted { '#' } else { '3' },
        Key::Four => if shifted { '$' } else { '4' },
        Key::Five => if shifted { '%' } else { '5' },
        Key::Six => if shifted { '^' } else { '6' },
        Key::Seven => if shifted { '&' } else { '7' },
        Key::Eight => if shifted { '*' } else { '8' },
        Key::Nine => if shifted { '(' } else { '9' },
        Key::Zero => if shifted { ')' } else { '0' },
        Key::OpenBracket => if shifted { '{' } else { '[' },
        Key::CloseBracket => if shifted { '}' } else { ']' },
        Key::Quote => if shifted { '"' } else { '\'' },
        Key::Comma => if shifted { '<' } else { ',' },
        Key::Period => if shifted { '>' } else { '.' },
        Key::P => if shifted { 'P' } else { 'p' },
        Key::Y => if shifted { 'Y' } else { 'y' },
        Key::F => if shifted { 'F' } else { 'f' },
        Key::G => if shifted { 'G' } else { 'g' },
        Key::C => if shifted { 'C' } else { 'c' },
        Key::R => if shifted { 'R' } else { 'r' },
        Key::L => if shifted { 'L' } else { 'l' },
        Key::ForwardSlash => if shifted { '?' } else { '/' },
        Key::Equal => if shifted { '+' } else { '=' },
        Key::BackSlash => if shifted { '|' } else { '\\' },
        Key::A => if shifted { 'A' } else { 'a' },
        Key::O => if shifted { 'O' } else { 'o' },
        Key::E => if shifted { 'E' } else { 'e' },
        Key::U => if shifted { 'U' } else { 'u' },
        Key::I => if shifted { 'I' } else { 'i' },
        Key::D => if shifted { 'D' } else { 'd' },
        Key::H => if shifted { 'H' } else { 'h' },
        Key::T => if shifted { 'T' } else { 't' },
        Key::N => if shifted { 'N' } else { 'n' },
        Key::S => if shifted { 'S' } else { 's' },
        Key::Dash => if shifted { '_' } else { '-' },
        Key::Semicolon => if shifted { ':' } else { ';' },
        Key::Q => if shifted { 'Q' } else { 'q' },
        Key::J => if shifted { 'J' } else { 'j' },
        Key::K => if shifted { 'K' } else { 'k' },
        Key::X => if shifted { 'X' } else { 'x' },
        Key::B => if shifted { 'B' } else { 'b' },
        Key::M => if shifted { 'M' } else { 'm' },
        Key::W => if shifted { 'W' } else { 'w' },
        Key::V => if shifted { 'V' } else { 'v' },
        Key::Z => if shifted { 'Z' } else { 'z' },
    }
}

/// The character that the same physical key `k` types on the QWERTY layout.
pub open spec fn qwerty_char(k: Key, shifted: bool) -> char {
    match k {
        Key::BackTick => if shifted { '~' } else { '`' },
        Key::One => if shifted { '!' } else { '1' },
        Key::Two => if shifted { '@' } else { '2' },
        Key::Three => if shifted { '#' } else { '3' },
        Key::Four => if shifted { '$' } else { '4' },
        Key::Five => if shifted { '%' } else { '5' },
        Key::Six => if shifted { '^' } else { '6' },
        Key::Seven => if shifted { '&' } else { '7' },
        Key::Eight => if shifted { '*' } else { '8' },
        Key::Nine => if shifted { '(' } else { '9' },
        Key::Zero => if shifted { ')' } else { '0' },
        Key::OpenBracket => if shifted { '_' } else { '-' },
        Key::CloseBracket => if shifted { '+' } else { '=' },
        Key::Quote => if shifted { 'Q' } else { 'q' },
        Key::Comma => if shifted { 'W' } else { 'w' },
        Key::Period => if shifted { 'E' } else { 'e' },
        Key::P => if shifted { 'R' } else { 'r' },
        Key::Y => if shifted { 'T' } else { 't' },
        Key::F => if shifted { 'Y' } else { 'y' },
        Key::G => if shifted { 'U' } else { 'u' },
        Key::C => if shifted { 'I' } else { 'i' },
        Key::R => if shifted { 'O' } else { 'o' },
        Key::L => if shifted { 'P' } else { 'p' },
        Key::ForwardSlash => if shifted { '{' } else { '[' },
        Key::Equal => if shifted { '}' } else { ']' },
        Key::BackSlash => if shifted { '|' } else { '\\' },
        Key::A => if shifted { 'A' } else { 'a' },
        Key::O => if shifted { 'S' } else { 's' },
        Key::E => if shifted { 'D' } else { 'd' },
        Key::U => if shifted { 'F' } else { 'f' },
        Key::I => if shifted { 'G' } else { 'g' },
        Key::D => if shifted { 'H' } else { 'h' },
        Key::H => if shifted { 'J' } else { 'j' },
        Key::T => if shifted { 'K' } else { 'k' },
        Key::N => if shifted { 'L' } else { 'l' },
        Key::S => if shifted { ':' } else { ';' },
        Key::Dash => if shifted { '"' } else { '\'' },
        Key::Semicolon => if shifted { 'Z' } else { 'z' },
        Key::Q => if shifted { 'X' } else { 'x' },
        Key::J => if shifted { 'C' } else { 'c' },
        Key::K => if shifted { 'V' } else { 'v' },
        Key::X => if shifted { 'B' } else { 'b' },
        Key::B => if shifted { 'N' } else { 'n' },
        Key::M => if shifted { 'M' } else { 'm' },
        Key::W => if shifted { '<' } else { ',' },
        Key::V => if shifted { '>' } else { '.' },
        Key::Z => if shifted { '?' } else { '/' },
    }
}

/// The key that types on QWERTY the characters that `k` types on Dvorak.
pub open spec fn qwerty_twin(k: Key) -> Key {
    match k {
        Key::BackTick => Key::BackTick,
        Key::One => Key::One,
        Key::Two => Key::Two,
        Key::Three => Key::Three,
        Key::Four => Key::Four,
        Key::Five => Key::Five,
        Key::Six => Key::Six,
        Key::Seven => Key::Seven,
        Key::Eight => Key::Eight,
        Key::Nine => Key::Nine,
        Key::Zero => Key::Zero,
        Key::OpenBracket => Key::ForwardSlash,
        Key::CloseBracket => Key::Equal,
        Key::Quote => Key::Dash,
        Key::Comma => Key::W,
        Key::Period => Key::V,
        Key::P => Key::L,
        Key::Y => Key::F,
        Key::F => Key::U,
        Key::G => Key::I,
        Key::C => Key::J,
        Key::R => Key::P,
        Key::L => Key::N,
        Key::ForwardSlash => Key::Z,
        Key::Equal => Key::CloseBracket,
        Key::BackSlash => Key::BackSlash,
        Key::A => Key::A,
        Key::O => Key::R,
        Key::E => Key::Period,
        Key::U => Key::G,
        Key::I => Key::C,
        Key::D => Key::E,
        Key::H => Key::D,
        Key::T => Key::Y,
        Key::N => Key::B,
        Key::S => Key::O,
        Key::Dash => Key::OpenBracket,
        Key::Semicolon => Key::S,
        Key::Q => Key::Quote,
        Key::J => Key::H,
        Key::K => Key::T,
        Key::X => Key::Q,
        Key::B => Key::X,
        Key::M => Key::M,
        Key::W => Key::Comma,
        Key::V => Key::K,
        Key::Z => Key::Semicolon,
    }
}

/// The key that types on Dvorak the characters that `k` types on QWERTY.
pub open spec fn dvorak_twin(k: Key) -> Key {
    match k {
        Key::BackTick => Key::BackTick,
        Key::One => Key::One,
        Key::Two => Key::Two,
        Key::Three => Key::Three,
        Key::Four => Key::Four,
        Key::Five => Key::Five,
        Key::Six => Key::Six,
        Key::Seven => Key::Seven,
        Key::Eight => Key::Eight,
        Key::Nine => Key::Nine,
        Key::Zero => Key::Zero,
        Key::OpenBracket => Key::Dash,
        Key::CloseBracket => Key::Equal,
        Key::Quote => Key::Q,
        Key::Comma => Key::W,
        Key::Period => Key::E,
        Key::P => Key::R,
        Key::Y => Key::T,
        Key::F => Key::Y,
        Key::G => Key::U,
        Key::C => Key::I,
        Key::R => Key::O,
        Key::L => Key::P,
        Key::ForwardSlash => Key::OpenBracket,
        Key::Equal => Key::CloseBracket,
        Key::BackSlash => Key::BackSlash,
        Key::A => Key::A,
        Key::O => Key::S,
        Key::E => Key::D,
        Key::U => Key::F,
        Key::I => Key::G,
        Key::D => Key::H,
        Key::H => Key::J,
        Key::T => Key::K,
        Key::N => Key::L,
        Key::S => Key::Semicolon,
        Key::Dash => Key::Quote,
        Key::Semicolon => Key::Z,
        Key::Q => Key::X,
        Key::J => Key::C,
        Key::K => Key::V,
        Key::X => Key::B,
        Key::B => Key::N,
        Key::M => Key::M,
        Key::W => Key::Comma,
        Key::V => Key::Period,
        Key::Z => Key::ForwardSlash,
    }
}

/// The two layouts print the same characters, in the same shift states,
/// on different keys.
pub proof fn lemma_same_characters(k: Key, shifted: bool)
    ensures
        qwerty_char(qwerty_twin(k), shifted) == dvorak_char(k, shifted),
        dvorak_char(dvorak_twin(k), shifted) == qwerty_char(k, shifted),
{
}

/// No two key positions (key and shift state) type the same Dvorak character.
pub proof fn lemma_dvorak_injective(k1: Key, s1: bool, k2: Key, s2: bool)
    requires
        dvorak_char(k1, s1) == dvorak_char(k2, s2),
    ensures
        k1 == k2 && s1 == s2,
{
}

/// No two key positions (key and shift state) type the same QWERTY character.
pub proof fn lemma_qwerty_injective(k1: Key, s1: bool, k2: Key, s2: bool)
    requires
        qwerty_char(k1, s1) == qwerty_char(k2, s2),
    ensures
        k1 == k2 && s1 == s2,
{
}

impl Key {
    /// The Dvorak character of this key, shifted or not.
    pub fn glyph(self, shifted: bool) -> (r: char)
        ensures
            r == dvorak_char(self, shifted),
    {
        match self {
            Key::BackTick => if shifted { '~' } else { '`' },
            Key::One => if shifted { '!' } else { '1' },
            Key::Two => if shifted { '@' } else { '2' },
            Key::Three => if shifted { '#' } else { '3' },
            Key::Four => if shifted { '$' } else { '4' },
            Key::Five => if shifted { '%' } else { '5' },
            Key::Six => if shifted { '^' } else { '6' },
            Key::Seven => if shifted { '&' } else { '7' },
            Key::Eight => if shifted { '*' } else { '8' },
            Key::Nine => if shifted { '(' } else { '9' },
            Key::Zero => if shifted { ')' } else { '0' },
            Key::OpenBracket => if shifted { '{' } else { '[' },
            Key::CloseBracket => if shifted { '}' } else { ']' },
            Key::Quote => if shifted { '"' } else { '\'' },
            Key::Comma => if shifted { '<' } else { ',' },
            Key::Period => if shifted { '>' } else { '.' },
            Key::P => if shifted { 'P' } else { 'p' },
            Key::Y => if shifted { 'Y' } else { 'y' },
            Key::F => if shifted { 'F' } else { 'f' },
            Key::G => if shifted { 'G' } else { 'g' },
            Key::C => if shifted { 'C' } else { 'c' },
            Key::R => if shifted { 'R' } else { 'r' },
            Key::L => if shifted { 'L' } else { 'l' },
            Key::ForwardSlash => if shifted { '?' } else { '/' },
            Key::Equal => if shifted { '+' } else { '=' },
            Key::BackSlash => if shifted { '|' } else { '\\' },
            Key::A => if shifted { 'A' } else { 'a' },
            Key::O => if shifted { 'O' } else { 'o' },
            Key::E => if shifted { 'E' } else { 'e' },
            Key::U => if shifted { 'U' } else { 'u' },
            Key::I => if shifted { 'I' } else { 'i' },
            Key::D => if shifted { 'D' } else { 'd' },
            Key::H => if shifted { 'H' } else { 'h' },
            Key::T => if shifted { 'T' } else { 't' },
            Key::N => if shifted { 'N' } else { 'n' },
            Key::S => if shifted { 'S' } else { 's' },
            Key::Dash => if shifted { '_' } else { '-' },
            Key::Semicolon => if shifted { ':' } else { ';' },
            Key::Q => if shifted { 'Q' } else { 'q' },
            Key::J => if shifted { 'J' } else { 'j' },
            Key::K => if shifted { 'K' } else { 'k' },
            Key::X => if shifted { 'X' } else { 'x' },
            Key::B => if shifted { 'B' } else { 'b' },
            Key::M => if shifted { 'M' } else { 'm' },
            Key::W => if shifted { 'W' } else { 'w' },
            Key::V => if shifted { 'V' } else { 'v' },
            Key::Z => if shifted { 'Z' } else { 'z' },
        }
    }
}

/// The key whose Dvorak legend carries the character of `code`, if any.
/// Keys that type no character, and characters that no key types, give `None`.
pub fn key_code_to_key(code: KeyCode) -> (r: Option<Key>)
    ensures
        match r {
            Some(k) => code is Char && (dvorak_char(k, false) == code->Char_0 || dvorak_char(k, true)
                == code->Char_0),
            None => !(code is Char) || forall|k: Key, s: bool| dvorak_char(k, s) != code->Char_0,
        },
{
    match code {
        KeyCode::Char(c) => match c {
            '`' | '~' => Some(Key::BackTick),
            '1' | '!' => Some(Key::One),
            '2' | '@' => Some(Key::Two),
            '3' | '#' => Some(Key::Three),
            '4' | '$' => Some(Key::Four),
            '5' | '%' => Some(Key::Five),
            '6' | '^' => Some(Key::Six),
            '7' | '&' => Some(Key::Seven),
            '8' | '*' => Some(Key::Eight),
            '9' | '(' => Some(Key::Nine),
            '0' | ')' => Some(Key::Zero),
            '[' | '{' => Some(Key::OpenBracket),
            ']' | '}' => Some(Key::CloseBracket),
            '\'' | '"' => Some(Key::Quote),
            ',' | '<' => Some(Key::Comma),
            '.' | '>' => Some(Key::Period),
            'p' | 'P' => Some(Key::P),
            'y' | 'Y' => Some(Key::Y),
            'f' | 'F' => Some(Key::F),
            'g' | 'G' => Some(Key::G),
            'c' | 'C' => Some(Key::C),
            'r' | 'R' => Some(Key::R),
            'l' | 'L' => Some(Key::L),
            '/' | '?' => Some(Key::ForwardSlash),
            '=' | '+' => Some(Key::Equal),
            '\\' | '|' => Some(Key::BackSlash),
            'a' | 'A' => Some(Key::A),
            'o' | 'O' => Some(Key::O),
            'e' | 'E' => Some(Key::E),
            'u' | 'U' => Some(Key::U),
            'i' | 'I' => Some(Key::I),
            'd' | 'D' => Some(Key::D),
            'h' | 'H' => Some(Key::H),
            't' | 'T' => Some(Key::T),
            'n' | 'N' => Some(Key::N),
            's' | 'S' => Some(Key::S),
            '-' | '_' => Some(Key::Dash),
            ';' | ':' => Some(Key::Semicolon),
            'q' | 'Q' => Some(Key::Q),
            'j' | 'J' => Some(Key::J),
            'k' | 'K' => Some(Key::K),
            'x' | 'X' => Some(Key::X),
            'b' | 'B' => Some(Key::B),
            'm' | 'M' => Some(Key::M),
            'w' | 'W' => Some(Key::W),
            'v' | 'V' => Some(Key::V),
            'z' | 'Z' => Some(Key::Z),
            _ => None,
        },
        _ => None,
    }
}

/// Whether key `k` is a letter key, whose legend shows only the lower case.
pub open spec fn is_letter_key(k: Key) -> bool {
    'a' as u32 <= dvorak_char(k, false) as u32 <= 'z' as u32
}

/// The legend of key `k` centred in a cell four characters wide: the
/// unshifted and shifted characters, or only the lower case for a letter.
pub open spec fn key_label(k: Key) -> Seq<char> {
    if is_letter_key(k) {
        seq![' ', dvorak_char(k, false), ' ', ' ']
    } else {
        seq![' ', dvorak_char(k, false), dvorak_char(k, true), ' ']
    }
}

/// Relies on std's `FromIterator<char>` for `String`: the string holds the
/// characters in the order given.
#[verifier::external_body]
fn string_from_chars(chars: &[char]) -> (r: String)
    ensures
        r@ == chars@,
{
    chars.iter().collect()
}

impl Key {
    /// Appends the key's legend, centred in a cell four characters wide, to `out`.
    fn push_label(&self, out: &mut Vec<char>)
        ensures
            final(out)@ == old(out)@ + key_label(*self),
    {
        let lower = self.glyph(false);
        out.push(' ');
        out.push(lower);
        if 'a' as u32 <= lower as u32 && lower as u32 <= 'z' as u32 {
            out.push(' ');
        } else {
            out.push(self.glyph(true));
        }
        out.push(' ');
        proof {
            assert(final(out)@ =~= old(out)@ + key_label(*self));
        }
    }

    /// The key's legend, centred in a cell four characters wide.
    pub fn to_string(&self) -> (r: String)
        ensures
            r@ == key_label(*self),
    {
        let mut cell: Vec<char> = Vec::new();
        self.push_label(&mut cell);
        proof {
            assert(cell@ =~= key_label(*self));
        }
        string_from_chars(cell.as_slice())
    }
}

/// The keys of the Dvorak board, row by row from the number row down.
pub open spec fn dvorak_rows() -> Seq<Key> {
    seq![
        Key::BackTick,
        Key::One,
        Key::Two,
        Key::Three,
        Key::Four,
        Key::Five,
        Key::Six,
        Key::Seven,
        Key::Eight,
        Key::Nine,
        Key::Zero,
        Key::OpenBracket,
        Key::CloseBracket,
        Key::Quote,
        Key::Comma,
        Key::Period,
        Key::P,
        Key::Y,
        Key::F,
        Key::G,
        Key::C,
        Key::R,
        Key::L,
        Key::ForwardSlash,
        Key::Equal,
        Key::BackSlash,
        Key::A,
        Key::O,
        Key::E,
        Key::U,
        Key::I,
        Key::D,
        Key::H,
        Key::T,
        Key::N,
        Key::S,
        Key::Dash,
        Key::Semicolon,
        Key::Q,
        Key::J,
        Key::K,
        Key::X,
        Key::B,
        Key::M,
        Key::W,
        Key::V,
        Key::Z,
    ]
}

/// One element of the on-screen keyboard: a key, highlighted when it is the
/// one last pressed, or the start of the next row, indented by `indent` cells.
#[derive(Clone, Copy, Debug, PartialEq, Eq, Structural)]
pub enum KeyCell {
    Key { key: Key, pressed: bool },
    RowBreak { indent: usize },
}

/// What a keyboard holds: its keys row by row, the length of each row, and
/// the key last pressed.
pub struct KeyboardView {
    pub keys: Seq<Key>,
    pub numberrow_cnt: nat,
    pub toprow_cnt: nat,
    pub homerow_cnt: nat,
    pub bottomrow_cnt: nat,
    pub pressed: Option<Key>,
}

/// The cells of the keys of `kb`, in order, without row breaks.
pub open spec fn key_cells(kb: KeyboardView) -> Seq<KeyCell> {
    Seq::new(
        kb.keys.len(),
        |i: int| KeyCell::Key { key: kb.keys[i], pressed: kb.pressed == Some(kb.keys[i]) },
    )
}

/// The cells of `kb` as drawn: its key cells with a row break, indented six,
/// eight and ten cells, before the first key of the top, home and bottom rows.
pub open spec fn board_cells(kb: KeyboardView) -> Seq<KeyCell> {
    let top = kb.numberrow_cnt as int;
    let home = top + kb.toprow_cnt;
    let bottom = home + kb.homerow_cnt;
    key_cells(kb).insert(bottom, KeyCell::RowBreak { indent: 10 }).insert(
        home,
        KeyCell::RowBreak { indent: 8 },
    ).insert(top, KeyCell::RowBreak { indent: 6 })
}

/// The text of one cell: a key's label, or a line break followed by the indent.
pub open spec fn cell_text(c: KeyCell) -> Seq<char> {
    match c {
        KeyCell::Key { key, .. } => key_label(key),
        KeyCell::RowBreak { indent } => seq!['\r', '\n'] + Seq::new(indent as nat, |i: int| ' '),
    }
}

/// The texts of the cells `cs`, one after another.
pub open spec fn cells_text(cs: Seq<KeyCell>) -> Seq<char>
    decreases cs.len(),
{
    if cs.len() == 0 {
        Seq::empty()
    } else {
        cells_text(cs.drop_last()) + cell_text(cs.last())
    }
}

/// The on-screen keyboard, with the key last pressed.
pub struct Keyboard {
    keys: Vec<Key>,
    numberrow_cnt: usize,
    toprow_cnt: usize,
    homerow_cnt: usize,
    bottomrow_cnt: usize,
    pressed: Option<Key>,
}

impl View for Keyboard {
    type V = KeyboardView;

    closed spec fn view(&self) -> KeyboardView {
        KeyboardView {
            keys: self.keys@,
            numberrow_cnt: self.numberrow_cnt as nat,
            toprow_cnt: self.toprow_cnt as nat,
            homerow_cnt: self.homerow_cnt as nat,
            bottomrow_cnt: self.bottomrow_cnt as nat,
            pressed: self.pressed,
        }
    }
}

impl Default for Keyboard {
    /// The Dvorak board: thirteen keys in the number row and in the top row,
    /// eleven in the home row, ten in the bottom row; nothing pressed.
    fn default() -> (r: Keyboard)
        ensures
            r@.keys == dvorak_rows(),
            r@.numberrow_cnt == 13,
            r@.toprow_cnt == 13,
            r@.homerow_cnt == 11,
            r@.bottomrow_cnt == 10,
            r@.pressed == None::<Key>,
    {
        let keys = vec![
            Key::BackTick,
            Key::One,
            Key::Two,
            Key::Three,
            Key::Four,
            Key::Five,
            Key::Six,
            Key::Seven,
            Key::Eight,
            Key::Nine,
            Key::Zero,
            Key::OpenBracket,
            Key::CloseBracket,
            Key::Quote,
            Key::Comma,
            Key::Period,
            Key::P,
            Key::Y,
            Key::F,
            Key::G,
            Key::C,
            Key::R,
            Key::L,
            Key::ForwardSlash,
            Key::Equal,
            Key::BackSlash,
            Key::A,
            Key::O,
            Key::E,
            Key::U,
            Key::I,
            Key::D,
            Key::H,
            Key::T,
            Key::N,
            Key::S,
            Key::Dash,
            Key::Semicolon,
            Key::Q,
            Key::J,
            Key::K,
            Key::X,
            Key::B,
            Key::M,
            Key::W,
            Key::V,
            Key::Z,
        ];
        proof {
            assert(keys@ =~= dvorak_rows());
        }
        Keyboard {
            keys,
            numberrow_cnt: 13,
            toprow_cnt: 13,
            homerow_cnt: 11,
            bottomrow_cnt: 10,
            pressed: None,
        }
    }
}

impl Keyboard {
    #[verifier::type_invariant]
    closed spec fn rows_cover_keys(self) -> bool {
        self.numberrow_cnt + self.toprow_cnt + self.homerow_cnt + self.bottomrow_cnt
            == self.keys.len()
    }

    /// Index of the first key of the number row.
    pub fn numberrow_idx(&self) -> (r: usize)
        ensures
            r == 0,
    {
        0
    }

    /// Index of the first key of the top row.
    pub fn toprow_idx(&self) -> (r: usize)
        ensures
            r == self@.numberrow_cnt,
    {
        proof {
            use_type_invariant(self);
        }
        self.numberrow_idx() + self.numberrow_cnt
    }

    /// Index of the first key of the home row.
    pub fn homerow_idx(&self) -> (r: usize)
        ensures
            r == self@.numberrow_cnt + self@.toprow_cnt,
    {
        proof {
            use_type_invariant(self);
        }
        self.toprow_idx() + self.toprow_cnt
    }

    /// Index of the first key of the bottom row.
    pub fn bottomrow_idx(&self) -> (r: usize)
        ensures
            r == self@.numberrow_cnt + self@.toprow_cnt + self@.homerow_cnt,
    {
        proof {
            use_type_invariant(self);
        }
        self.homerow_idx() + self.homerow_cnt
    }

    /// Records `key` as the key last pressed (`None`: no key).
    pub fn key_pressed(&mut self, key: Option<Key>)
        ensures
            final(self)@ == (KeyboardView { pressed: key, ..old(self)@ }),
    {
        proof {
            use_type_invariant(&*self);
        }
        self.pressed = key;
    }

    /// The cells to draw: every key in order, the pressed one highlighted,
    /// with a row break before the top, home and bottom rows.
    pub fn to_styled(&self) -> (r: Vec<KeyCell>)
        ensures
            r@ == board_cells(self@),
    {
        proof {
            use_type_invariant(self);
        }
        let mut styled: Vec<KeyCell> = Vec::new();
        let mut i: usize = 0;
        while i < self.keys.len()
            invariant
                i <= self.keys@.len(),
                styled@ =~= key_cells(self@).take(i as int),
            decreases self.keys@.len() - i,
        {
            let key = self.keys[i];
            let pressed = match self.pressed {
                Some(p) => key == p,
                None => false,
            };
            styled.push(KeyCell::Key { key, pressed });
            i = i + 1;
        }
        proof {
            assert(key_cells(self@).take(i as int) =~= key_cells(self@));
        }
        // Reverse order, so that each insertion leaves the earlier indices in place.
        styled.insert(self.bottomrow_idx(), KeyCell::RowBreak { indent: 10 });
        styled.insert(self.homerow_idx(), KeyCell::RowBreak { indent: 8 });
        styled.insert(self.toprow_idx(), KeyCell::RowBreak { indent: 6 });
        styled
    }

    /// The keyboard as plain text, without highlighting: the text of each
    /// cell of `to_styled`, in order.
    pub fn to_string(&self) -> (r: String)
        ensures
            r@ == cells_text(board_cells(self@)),
    {
        let cells = self.to_styled();
        let mut text: Vec<char> = Vec::new();
        let mut i: usize = 0;
        while i < cells.len()
            invariant
                i <= cells@.len(),
                text@ == cells_text(cells@.take(i as int)),
            decreases cells@.len() - i,
        {
            let ghost before = text@;
            match cells[i] {
                KeyCell::Key { key, .. } => {
                    key.push_label(&mut text);
                },
                KeyCell::RowBreak { indent } => {
                    text.push('\r');
                    text.push('\n');
                    let mut j: usize = 0;
                    while j < indent
                        invariant
                            j <= indent,
                            text@ == before + seq!['\r', '\n'] + Seq::new(j as nat, |k: int| ' '),
                        decreases indent - j,
                    {
                        text.push(' ');
                        proof {
                            assert(Seq::new((j + 1) as nat, |k: int| ' ') =~= Seq::new(
                                j as nat,
                                |k: int| ' ',
                            ).push(' '));
                        }
                        j = j + 1;
                    }
                },
            }
            proof {
                assert(cells@.take(i + 1).drop_last() =~= cells@.take(i as int));
                assert(text@ =~= cells_text(cells@.take(i + 1)));
            }
            i = i + 1;
        }
        proof {
            assert(cells@.take(i as int) =~= cells@);
        }
        string_from_chars(text.as_slice())
    }
}

} // verus!
