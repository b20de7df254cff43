use typing_tutor::{key_code_to_key, qwerty_to_dvorak, Key, KeyCell, KeyCode, Keyboard};

#[test]
fn remap_follows_physical_keys() {
    let pairs = [
        ('q', '\''),
        ('Q', '"'),
        ('w', ','),
        ('e', '.'),
        ('r', 'p'),
        ('s', 'o'),
        ('d', 'e'),
        ('f', 'u'),
        ('j', 'h'),
        ('k', 't'),
        (';', 's'),
        (':', 'S'),
        ('\'', '-'),
        ('z', ';'),
        ('/', 'z'),
        ('-', '['),
        ('_', '{'),
        ('=', ']'),
        ('[', '/'),
        (']', '='),
        ('\\', '\\'),
        ('a', 'a'),
        ('m', 'm'),
        ('1', '1'),
    ];
    for (from, to) in pairs {
        assert_eq!(qwerty_to_dvorak(KeyCode::Char(from)), KeyCode::Char(to), "{}", from);
    }
}

#[test]
fn remap_passes_unmapped_input_through() {
    assert_eq!(qwerty_to_dvorak(KeyCode::Char(' ')), KeyCode::Char(' '));
    assert_eq!(qwerty_to_dvorak(KeyCode::Char('é')), KeyCode::Char('é'));
    assert_eq!(qwerty_to_dvorak(KeyCode::Backspace), KeyCode::Backspace);
    assert_eq!(qwerty_to_dvorak(KeyCode::Enter), KeyCode::Enter);
    assert_eq!(qwerty_to_dvorak(KeyCode::Esc), KeyCode::Esc);
    assert_eq!(qwerty_to_dvorak(KeyCode::Other), KeyCode::Other);
}

#[test]
fn remap_is_deterministic_and_injective_on_printable_ascii() {
    let mut seen = std::collections::HashMap::new();
    for b in 0x20u8..0x7f {
        let c = b as char;
        let first = qwerty_to_dvorak(KeyCode::Char(c));
        let second = qwerty_to_dvorak(KeyCode::Char(c));
        assert_eq!(first, second);
        if let KeyCode::Char(to) = first {
            assert!(seen.insert(to, c).is_none(), "{} and {} collide", c, seen[&to]);
        }
    }
}

#[test]
fn key_code_to_key_finds_dvorak_legends() {
    assert_eq!(key_code_to_key(KeyCode::Char('p')), Some(Key::P));
    assert_eq!(key_code_to_key(KeyCode::Char('P')), Some(Key::P));
    assert_eq!(key_code_to_key(KeyCode::Char('"')), Some(Key::Quote));
    assert_eq!(key_code_to_key(KeyCode::Char('_')), Some(Key::Dash));
    assert_eq!(key_code_to_key(KeyCode::Char('?')), Some(Key::ForwardSlash));
    assert_eq!(key_code_to_key(KeyCode::Char(' ')), None);
    assert_eq!(key_code_to_key(KeyCode::Backspace), None);
}

#[test]
fn key_labels_are_centred_in_four_cells() {
    assert_eq!(Key::P.to_string(), " p  ");
    assert_eq!(Key::BackTick.to_string(), " `~ ");
    assert_eq!(Key::ForwardSlash.to_string(), " /? ");
    assert_eq!(Key::BackSlash.to_string(), " \\| ");
    assert_eq!(Key::Quote.to_string(), " '\" ");
    assert_eq!(Key::P.glyph(true), 'P');
}

#[test]
fn keyboard_rows_and_cells() {
    let mut keyboard = Keyboard::default();
    assert_eq!(keyboard.numberrow_idx(), 0);
    assert_eq!(keyboard.toprow_idx(), 13);
    assert_eq!(keyboard.homerow_idx(), 26);
    assert_eq!(keyboard.bottomrow_idx(), 37);

    let cells = keyboard.to_styled();
    assert_eq!(cells.len(), 47 + 3);
    assert_eq!(cells[0], KeyCell::Key { key: Key::BackTick, pressed: false });
    assert_eq!(cells[13], KeyCell::RowBreak { indent: 6 });
    assert_eq!(cells[14], KeyCell::Key { key: Key::Quote, pressed: false });
    assert_eq!(cells[27], KeyCell::RowBreak { indent: 8 });
    assert_eq!(cells[28], KeyCell::Key { key: Key::A, pressed: false });
    assert_eq!(cells[39], KeyCell::RowBreak { indent: 10 });
    assert_eq!(cells[40], KeyCell::Key { key: Key::Semicolon, pressed: false });
    assert_eq!(cells[49], KeyCell::Key { key: Key::Z, pressed: false });

    keyboard.key_pressed(Some(Key::A));
    let cells = keyboard.to_styled();
    assert_eq!(cells[28], KeyCell::Key { key: Key::A, pressed: true });
    let pressed = cells
        .iter()
        .filter(|c| matches!(c, KeyCell::Key { pressed: true, .. }))
        .count();
    assert_eq!(pressed, 1);
}

#[test]
fn keyboard_as_plain_text() {
    let keyboard = Keyboard::default();
    let text = keyboard.to_string();
    let lines: Vec<&str> = text.split("\r\n").collect();
    assert_eq!(lines.len(), 4);
    assert!(lines[0].starts_with(" `~  1!  2@ "));
    assert!(lines[1].starts_with("       '\"  ,<  .>  p  "));
    assert!(lines[2].starts_with("         a   o   e   u "));
    assert!(lines[3].starts_with("           ;:  q   j  "));
    assert_eq!(lines[0].chars().count(), 13 * 4);
}
