use rssterm::input::{command_for_key, is_coalescable, Command, Key, KeyInput};

fn key(k: Key) -> KeyInput {
    KeyInput { key: k, shift: false, control: false, other_modifier: false, press: true }
}

#[test]
fn key_bindings() {
    assert_eq!(command_for_key(&key(Key::Up)), Some(Command::Scroll(-1)));
    assert_eq!(command_for_key(&key(Key::Char('k'))), Some(Command::Scroll(-1)));
    assert_eq!(command_for_key(&key(Key::Down)), Some(Command::Scroll(1)));
    assert_eq!(command_for_key(&key(Key::Char('j'))), Some(Command::Scroll(1)));
    assert_eq!(command_for_key(&key(Key::Char('g'))), Some(Command::Scroll(isize::MIN)));
    assert_eq!(command_for_key(&key(Key::Enter)), Some(Command::Expand));
    assert_eq!(command_for_key(&key(Key::Char('q'))), Some(Command::Close));
    assert_eq!(command_for_key(&key(Key::Char('o'))), Some(Command::Open));
    assert_eq!(command_for_key(&key(Key::Char('x'))), None);
    assert_eq!(command_for_key(&key(Key::Esc)), None);
}

#[test]
fn modified_key_bindings() {
    let shift_g = KeyInput { shift: true, ..key(Key::Char('G')) };
    assert_eq!(command_for_key(&shift_g), Some(Command::Scroll(isize::MAX)));
    assert_eq!(command_for_key(&key(Key::Char('G'))), None);
    let ctrl_d = KeyInput { control: true, ..key(Key::Char('d')) };
    assert_eq!(command_for_key(&ctrl_d), Some(Command::Exit));
    assert_eq!(command_for_key(&key(Key::Char('d'))), None);
    let release = KeyInput { press: false, ..key(Key::Enter) };
    assert_eq!(command_for_key(&release), None);
}

#[test]
fn only_arrows_are_coalesced() {
    assert!(is_coalescable(&key(Key::Up)));
    assert!(is_coalescable(&KeyInput { press: false, ..key(Key::Down) }));
    assert!(!is_coalescable(&key(Key::Char('j'))));
    assert!(!is_coalescable(&key(Key::Enter)));
}
