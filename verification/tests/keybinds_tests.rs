use ratune::config::KeybindsSection;
use ratune::keybinds::{Keybinds, KeyCode, KeyModifiers, parse_key, shift_digit_symbol, format_spec, KeySpec};

#[test]
fn rate_defaults_match_us_shift_digit_symbols() {
    let kb = Keybinds::from_section(&KeybindsSection::default());
    assert!(kb.rate_song_1.matches(KeyCode::Char('!'), KeyModifiers::empty()));
    assert!(kb.rate_song_3.matches(KeyCode::Char('#'), KeyModifiers::empty()));
    assert!(kb.rate_song_clear.matches(KeyCode::Char(')'), KeyModifiers::empty()));
}

#[test]
fn shift_digit_config_matches_digit_with_shift_or_symbol() {
    let sec = KeybindsSection { rate_song_1: Some("Shift+1".into()), ..Default::default() };
    let kb = Keybinds::from_section(&sec);
    assert!(kb.rate_song_1.matches(KeyCode::Char('1'), KeyModifiers::shift_only()));
    assert!(kb.rate_song_1.matches(KeyCode::Char('!'), KeyModifiers::empty()));
}

#[test]
fn single_uppercase_letter_in_config_is_shift_plus_lowercase() {
    let sec = KeybindsSection { prev_track: Some("N".into()), ..Default::default() };
    let kb = Keybinds::from_section(&sec);
    let p = &kb.prev_track;
    assert_eq!(p.code, KeyCode::Char('n'));
    assert_eq!(p.modifiers, KeyModifiers::shift_only());
    assert!(p.matches(KeyCode::Char('n'), KeyModifiers::shift_only()));
    assert!(p.matches(KeyCode::Char('N'), KeyModifiers::empty()));
    assert!(!p.matches(KeyCode::Char('n'), KeyModifiers::empty()));
}

#[test]
fn key_strings_parse() {
    assert_eq!(parse_key("Shift+N"), parse_key("N"));
    assert_eq!(parse_key(" j "), Some(KeySpec { code: KeyCode::Char('j'), modifiers: KeyModifiers::empty() }));
    assert_eq!(
        parse_key("Ctrl+Shift+R"),
        Some(KeySpec { code: KeyCode::Char('r'), modifiers: KeyModifiers::control_shift() })
    );
    assert_eq!(
        parse_key("ctrl+space"),
        Some(KeySpec { code: KeyCode::Char(' '), modifiers: KeyModifiers::control_only() })
    );
    assert_eq!(parse_key("Left"), Some(KeySpec { code: KeyCode::Left, modifiers: KeyModifiers::empty() }));
    assert_eq!(parse_key("Hyper+x"), None);
    assert_eq!(parse_key("Shift+ab"), None);
    assert_eq!(shift_digit_symbol('3'), Some('#'));
    assert_eq!(shift_digit_symbol('7'), None);
}

#[test]
fn chords_print_readably() {
    let kb = Keybinds::from_section(&KeybindsSection::default());
    assert_eq!(format_spec(kb.add_all_replace_artist.as_ref().unwrap()), "Ctrl+Shift+r");
    assert_eq!(format_spec(&kb.prev_track), "N");
}

#[test]
fn empty_binding_disables_instant_mix() {
    let kb = Keybinds::from_section(&KeybindsSection { instant_mix: Some(String::new()), ..Default::default() });
    assert!(kb.instant_mix.is_none());
    let kb = Keybinds::from_section(&KeybindsSection::default());
    assert_eq!(kb.instant_mix, Some(KeySpec { code: KeyCode::Char('m'), modifiers: KeyModifiers::empty() }));
}
