use twitch_controller::keyboard::aliases::lookup;
use twitch_controller::keyboard::{Key, ParseKey};

#[test]
fn test_parse_key() {
    assert_eq!(Key::parse("F11").unwrap(), Key::F11);
}

#[test]
fn every_alias_resolves_to_its_key() {
    let table: Vec<(&str, Key)> = vec![
        ("alt", Key::Alt),
        ("altgr", Key::AltGr),
        ("backspace", Key::Backspace),
        ("capslock", Key::CapsLock),
        ("controlleft", Key::ControlLeft),
        ("control", Key::ControlLeft),
        ("ctrl", Key::ControlLeft),
        ("controlright", Key::ControlRight),
        ("delete", Key::Delete),
        ("del", Key::Delete),
        ("downarrow", Key::DownArrow),
        ("down", Key::DownArrow),
        ("end", Key::End),
        ("escape", Key::Escape),
        ("f1", Key::F1),
        ("f2", Key::F2),
        ("f3", Key::F3),
        ("f4", Key::F4),
        ("f5", Key::F5),
        ("f6", Key::F6),
        ("f7", Key::F7),
        ("f8", Key::F8),
        ("f9", Key::F9),
        ("f10", Key::F10),
        ("f11", Key::F11),
        ("f12", Key::F12),
        ("home", Key::Home),
        ("leftarrow", Key::LeftArrow),
        ("<-", Key::LeftArrow),
        ("left", Key::LeftArrow),
        ("metaleft", Key::MetaLeft),
        ("windowsleft", Key::MetaLeft),
        ("windows", Key::MetaLeft),
        ("meta", Key::MetaLeft),
        ("metaright", Key::MetaRight),
        ("windowsright", Key::MetaRight),
        ("pagedown", Key::PageDown),
        ("pageup", Key::PageUp),
        ("return", Key::Return),
        ("rightarrow", Key::RightArrow),
        ("->", Key::RightArrow),
        ("right", Key::RightArrow),
        ("shiftleft", Key::ShiftLeft),
        ("shift", Key::ShiftLeft),
        ("shiftright", Key::ShiftRight),
        ("space", Key::Space),
        (" ", Key::Space),
        ("tab", Key::Tab),
        ("uparrow", Key::UpArrow),
        ("up", Key::UpArrow),
        ("printscreen", Key::PrintScreen),
        ("print", Key::PrintScreen),
        ("scrolllock", Key::ScrollLock),
        ("roll", Key::ScrollLock),
        ("pause", Key::Pause),
        ("numlock", Key::NumLock),
        ("backquote", Key::BackQuote),
        ("1", Key::Num1),
        ("2", Key::Num2),
        ("3", Key::Num3),
        ("4", Key::Num4),
        ("5", Key::Num5),
        ("6", Key::Num6),
        ("7", Key::Num7),
        ("8", Key::Num8),
        ("9", Key::Num9),
        ("0", Key::Num0),
        ("minus", Key::Minus),
        ("-", Key::Minus),
        ("equal", Key::Equal),
        ("=", Key::Equal),
        ("q", Key::KeyQ),
        ("w", Key::KeyW),
        ("e", Key::KeyE),
        ("r", Key::KeyR),
        ("t", Key::KeyT),
        ("y", Key::KeyY),
        ("u", Key::KeyU),
        ("i", Key::KeyI),
        ("o", Key::KeyO),
        ("p", Key::KeyP),
        ("leftbracket", Key::LeftBracket),
        ("(", Key::LeftBracket),
        ("rightbracket", Key::RightBracket),
        (")", Key::RightBracket),
        ("a", Key::KeyA),
        ("s", Key::KeyS),
        ("d", Key::KeyD),
        ("f", Key::KeyF),
        ("g", Key::KeyG),
        ("h", Key::KeyH),
        ("j", Key::KeyJ),
        ("k", Key::KeyK),
        ("l", Key::KeyL),
        ("semicolon", Key::SemiColon),
        (";", Key::SemiColon),
        ("quote", Key::Quote),
        ("\u{b4}", Key::Quote),
        ("backslash", Key::BackSlash),
        ("\\", Key::BackSlash),
        ("intlbackslash", Key::IntlBackslash),
        ("z", Key::KeyZ),
        ("x", Key::KeyX),
        ("c", Key::KeyC),
        ("v", Key::KeyV),
        ("b", Key::KeyB),
        ("n", Key::KeyN),
        ("m", Key::KeyM),
        ("comma", Key::Comma),
        (",", Key::Comma),
        ("dot", Key::Dot),
        (".", Key::Dot),
        ("slash", Key::Slash),
        ("/", Key::Slash),
        ("insert", Key::Insert),
        ("numreturn", Key::KpReturn),
        ("numminus", Key::KpMinus),
        ("numplus", Key::KpPlus),
        ("nummultiply", Key::KpMultiply),
        ("numdivide", Key::KpDivide),
        ("num0", Key::Kp0),
        ("num1", Key::Kp1),
        ("num2", Key::Kp2),
        ("num3", Key::Kp3),
        ("num4", Key::Kp4),
        ("num5", Key::Kp5),
        ("num6", Key::Kp6),
        ("num7", Key::Kp7),
        ("num8", Key::Kp8),
        ("num9", Key::Kp9),
        ("numdelete", Key::KpDelete),
        ("function", Key::Function),
    ];
    assert_eq!(table.len(), 132);
    for (alias, key) in table {
        assert_eq!(Key::parse(alias), Some(key), "alias {:?}", alias);
        assert_eq!(lookup(alias), Some(key), "alias {:?}", alias);
        assert_eq!(Key::from_lowercase(alias), Some(key), "alias {:?}", alias);
        assert_eq!(Key::parse(&alias.to_uppercase()), Some(key), "alias {:?} in capitals", alias);
    }
}

#[test]
fn names_are_resolved_without_regard_to_case() {
    assert_eq!(Key::parse("Space"), Some(Key::Space));
    assert_eq!(Key::parse("SPACE"), Some(Key::Space));
    assert_eq!(Key::parse("ControlLeft"), Some(Key::ControlLeft));
    assert_eq!(Key::parse("CTRL"), Some(Key::ControlLeft));
    assert_eq!(Key::parse("A"), Some(Key::KeyA));
    assert_eq!(Key::parse("NumPlus"), Some(Key::KpPlus));
}

#[test]
fn a_name_in_capitals_is_no_lowercase_name() {
    assert_eq!(Key::from_lowercase("F11"), None);
    assert_eq!(lookup("F11"), None);
    assert_eq!(Key::from_lowercase("Unknown(3)"), None);
}

#[test]
fn lowercasing_follows_unicode() {
    // The Kelvin sign has the letter k as its lowercase form.
    assert_eq!(Key::parse("\u{212a}"), Some(Key::KeyK));
    assert_eq!(Key::from_lowercase("\u{212a}"), None);
}

#[test]
fn near_misses_name_no_key() {
    for name in ["", "f13", "f0", "ctrl ", " ctrl", "spacebar", "num", "numm", "key", "keya",
        "<--", "--", "  ", "altgrr", "unknown", "none", "\u{e9}", "+", "a+b"] {
        assert_eq!(Key::parse(name), None, "name {:?}", name);
    }
}

#[test]
fn letters_and_function_keys_are_told_apart() {
    assert_eq!(Key::parse("f"), Some(Key::KeyF));
    assert_eq!(Key::parse("f1"), Some(Key::F1));
    assert_eq!(Key::parse("f10"), Some(Key::F10));
    assert_eq!(Key::parse("1"), Some(Key::Num1));
    assert_eq!(Key::parse("num1"), Some(Key::Kp1));
    assert_eq!(Key::parse("numlock"), Some(Key::NumLock));
    assert_eq!(Key::parse("-"), Some(Key::Minus));
    assert_eq!(Key::parse("->"), Some(Key::RightArrow));
    assert_eq!(Key::parse("<-"), Some(Key::LeftArrow));
}

#[test]
fn the_escape_form_gives_a_raw_key() {
    assert_eq!(Key::parse("Unknown(42)"), Some(Key::Unknown(42)));
    assert_eq!(Key::parse("unknown(0)"), Some(Key::Unknown(0)));
    assert_eq!(Key::parse("UNKNOWN(65)"), Some(Key::Unknown(65)));
    assert_eq!(Key::parse("unknown(4294967295)"), Some(Key::Unknown(4294967295)));
    assert_eq!(Key::from_lowercase("unknown(42)"), Some(Key::Unknown(42)));
}

#[test]
fn the_numeral_of_the_escape_form_is_trimmed() {
    assert_eq!(Key::parse("unknown( 7 )"), Some(Key::Unknown(7)));
    assert_eq!(Key::parse("unknown(\t7\n)"), Some(Key::Unknown(7)));
    assert_eq!(Key::parse("unknown(  123)"), Some(Key::Unknown(123)));
    assert_eq!(Key::parse("unknown(\u{a0}5\u{2003})"), Some(Key::Unknown(5)));
}

#[test]
fn the_numeral_may_have_a_plus_sign_and_leading_zeros() {
    assert_eq!(Key::parse("unknown(+9)"), Some(Key::Unknown(9)));
    assert_eq!(Key::parse("unknown(007)"), Some(Key::Unknown(7)));
    assert_eq!(Key::parse("unknown(+000)"), Some(Key::Unknown(0)));
    assert_eq!(
        Key::parse("unknown(000000000000000000000004294967295)"),
        Some(Key::Unknown(4294967295))
    );
}

#[test]
fn a_malformed_escape_form_names_no_key() {
    for name in ["unknown(", "unknown()", "unknown( )", "unknown(1", "unknown1)", "unknown(-1)",
        "unknown(+)", "unknown(++1)", "unknown(1_0)", "unknown(1 0)", "unknown(0x10)",
        "unknown(1.0)", "unknown(4294967296)", "unknown(99999999999999999999)",
        "unknown(\u{ff11})", "unknown(\u{663})", "unknown (1)", " unknown(1)", "unknown(1) ",
        "unknown(1))", "unknown((1)", "unknown)1(", "unknow(1)"] {
        assert_eq!(Key::parse(name), None, "name {:?}", name);
    }
}

#[test]
fn the_escape_form_is_taken_apart_by_its_brackets() {
    assert_eq!(Key::escaped("unknown(42)"), Some("42"));
    assert_eq!(Key::escaped("unknown( 42 )"), Some(" 42 "));
    assert_eq!(Key::escaped("unknown()"), Some(""));
    assert_eq!(Key::escaped("unknown(a)b)"), Some("a)b"));
    assert_eq!(Key::escaped("unknown(\u{e9})"), Some("\u{e9}"));
    assert_eq!(Key::escaped("unknown("), None);
    assert_eq!(Key::escaped("unknown(1"), None);
    assert_eq!(Key::escaped("Unknown(1)"), None);
    assert_eq!(Key::escaped("unknown1)"), None);
    assert_eq!(Key::escaped(""), None);
    assert_eq!(Key::escaped("f11"), None);
}

#[test]
fn a_decimal_numeral_gives_a_raw_key() {
    assert_eq!(Key::raw("0"), Some(Key::Unknown(0)));
    assert_eq!(Key::raw("42"), Some(Key::Unknown(42)));
    assert_eq!(Key::raw("+42"), Some(Key::Unknown(42)));
    assert_eq!(Key::raw("0042"), Some(Key::Unknown(42)));
    assert_eq!(Key::raw("4294967295"), Some(Key::Unknown(u32::MAX)));
    for text in ["", "+", "-", "-1", "+-1", "4294967296", " 1", "1 ", "1e3", "0x1", "\u{967}", "1_000"] {
        assert_eq!(Key::raw(text), None, "text {:?}", text);
    }
}
