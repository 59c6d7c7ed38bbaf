use twitch_controller::input::{parse_chord, Input};
use twitch_controller::keyboard::Key;
use twitch_controller::text::{is_white_space_char, same_text, split_at_plus};

#[test]
fn a_text_without_plus_is_one_piece() {
    assert_eq!(split_at_plus("space"), vec!["space"]);
    assert_eq!(split_at_plus(""), vec![""]);
    assert_eq!(split_at_plus(" "), vec![" "]);
}

#[test]
fn a_text_is_cut_at_every_plus() {
    assert_eq!(split_at_plus("a+b"), vec!["a", "b"]);
    assert_eq!(split_at_plus("ctrl+shift+f5"), vec!["ctrl", "shift", "f5"]);
    assert_eq!(split_at_plus("+"), vec!["", ""]);
    assert_eq!(split_at_plus("a++b"), vec!["a", "", "b"]);
    assert_eq!(split_at_plus("+a"), vec!["", "a"]);
    assert_eq!(split_at_plus("a+"), vec!["a", ""]);
    assert_eq!(split_at_plus("+++"), vec!["", "", "", ""]);
}

#[test]
fn pieces_are_cut_by_characters_not_bytes() {
    assert_eq!(split_at_plus("\u{b4}+\u{e9}\u{fc}+\u{1f600}"), vec!["\u{b4}", "\u{e9}\u{fc}", "\u{1f600}"]);
}

#[test]
fn split_agrees_with_the_standard_split() {
    for text in ["", "a", "+", "a+b", "a+b+c", "++", "a++", "++a", "ab+cd+ef", " + ", "x+y+"] {
        let expected: Vec<&str> = text.split('+').collect();
        assert_eq!(split_at_plus(text), expected, "text {:?}", text);
    }
}

#[test]
fn a_chord_lists_its_keys_in_order() {
    assert_eq!(
        parse_chord("A+B"),
        Some(vec![Input::Keyboard(Key::KeyA), Input::Keyboard(Key::KeyB)])
    );
    assert_eq!(
        parse_chord("ctrl+Shift+F5"),
        Some(vec![
            Input::Keyboard(Key::ControlLeft),
            Input::Keyboard(Key::ShiftLeft),
            Input::Keyboard(Key::F5),
        ])
    );
    assert_eq!(parse_chord("Space"), Some(vec![Input::Keyboard(Key::Space)]));
    assert_eq!(
        parse_chord("b+a"),
        Some(vec![Input::Keyboard(Key::KeyB), Input::Keyboard(Key::KeyA)])
    );
}

#[test]
fn a_chord_may_hold_the_space_alias_and_raw_keys() {
    assert_eq!(
        parse_chord("a+ "),
        Some(vec![Input::Keyboard(Key::KeyA), Input::Keyboard(Key::Space)])
    );
    assert_eq!(
        parse_chord("unknown(12)+->"),
        Some(vec![Input::Keyboard(Key::Unknown(12)), Input::Keyboard(Key::RightArrow)])
    );
}

#[test]
fn a_chord_keeps_a_key_that_is_written_twice() {
    assert_eq!(
        parse_chord("a+a"),
        Some(vec![Input::Keyboard(Key::KeyA), Input::Keyboard(Key::KeyA)])
    );
}

#[test]
fn a_chord_with_an_unresolved_piece_is_refused() {
    for text in ["", "a+", "+a", "a++b", "a+nokey", "nokey+a", "a + b", "+", "a+b+f13"] {
        assert_eq!(parse_chord(text), None, "text {:?}", text);
    }
}

#[test]
fn whitespace_is_what_the_standard_library_takes_for_it() {
    let mut count = 0;
    for code in 0..=0x10ffff_u32 {
        if let Some(c) = char::from_u32(code) {
            assert_eq!(is_white_space_char(c), c.is_whitespace(), "code {:#x}", code);
            if is_white_space_char(c) {
                count += 1;
            }
        }
    }
    assert_eq!(count, 25);
}

#[test]
fn every_whitespace_character_is_trimmed_and_no_other() {
    for code in 0..=0x10ffff_u32 {
        if let Some(c) = char::from_u32(code) {
            let name = format!("unknown({}{}7{})", c, c, c);
            let trimmed_away = Key::from_lowercase(&name) == Some(Key::Unknown(7));
            assert_eq!(trimmed_away, is_white_space_char(c), "code {:#x}", code);
        }
    }
}

#[test]
fn texts_are_the_same_when_their_characters_are() {
    assert!(same_text("", ""));
    assert!(same_text("alt", "alt"));
    assert!(same_text("\u{b4}\u{1f600}", "\u{b4}\u{1f600}"));
    assert!(!same_text("alt", "altgr"));
    assert!(!same_text("altgr", "alt"));
    assert!(!same_text("", " "));
    assert!(!same_text("f1", "f2"));
    assert!(!same_text("a1", "b1"));
    assert!(!same_text("e", "\u{e9}"));
    assert!(!same_text("\u{e9}", "e\u{301}"));
}
