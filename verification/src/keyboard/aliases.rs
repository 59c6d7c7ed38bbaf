//! The aliases of the keys.
//!
//! Every key but a raw one has one or more aliases, all in lowercase. The
//! table is written twice: by name, as the lookup goes through it, and by key,
//! as a reader would list it. [`alias_lookup_is_exact`] shows that the two
//! agree.
use vstd::prelude::*;
use crate::keyboard::Key;
use crate::text::same_text;

verus! {

/// The key that `name` denotes where it is an alias of a modifier or lock key.
pub open spec fn modifier_key(name: Seq<char>) -> Option<Key> {
    if name == "alt"@ {
        Some(Key::Alt)
    } else if name == "altgr"@ {
        Some(Key::AltGr)
    } else if name == "capslock"@ {
        Some(Key::CapsLock)
    } else if name == "controlleft"@ || name == "control"@ || name == "ctrl"@ {
        Some(Key::ControlLeft)
    } else if name == "controlright"@ {
        Some(Key::ControlRight)
    } else if name == "metaleft"@ || name == "windowsleft"@ || name == "windows"@
        || name == "meta"@ {
        Some(Key::MetaLeft)
    } else if name == "metaright"@ || name == "windowsright"@ {
        Some(Key::MetaRight)
    } else if name == "shiftleft"@ || name == "shift"@ {
        Some(Key::ShiftLeft)
    } else if name == "shiftright"@ {
        Some(Key::ShiftRight)
    } else if name == "numlock"@ {
        Some(Key::NumLock)
    } else if name == "scrolllock"@ || name == "roll"@ {
        Some(Key::ScrollLock)
    } else if name == "function"@ {
        Some(Key::Function)
    } else {
        None
    }
}

/// The key that `name` denotes where it is an alias of an editing or system key.
pub open spec fn editing_key(name: Seq<char>) -> Option<Key> {
    if name == "backspace"@ {
        Some(Key::Backspace)
    } else if name == "delete"@ || name == "del"@ {
        Some(Key::Delete)
    } else if name == "escape"@ {
        Some(Key::Escape)
    } else if name == "insert"@ {
        Some(Key::Insert)
    } else if name == "return"@ {
        Some(Key::Return)
    } else if name == "space"@ || name == " "@ {
        Some(Key::Space)
    } else if name == "tab"@ {
        Some(Key::Tab)
    } else if name == "printscreen"@ || name == "print"@ {
        Some(Key::PrintScreen)
    } else if name == "pause"@ {
        Some(Key::Pause)
    } else {
        None
    }
}

/// The key that `name` denotes where it is an alias of a cursor key.
pub open spec fn navigation_key(name: Seq<char>) -> Option<Key> {
    if name == "downarrow"@ || name == "down"@ {
        Some(Key::DownArrow)
    } else if name == "end"@ {
        Some(Key::End)
    } else if name == "home"@ {
        Some(Key::Home)
    } else if name == "leftarrow"@ || name == "<-"@ || name == "left"@ {
        Some(Key::LeftArrow)
    } else if name == "pagedown"@ {
        Some(Key::PageDown)
    } else if name == "pageup"@ {
        Some(Key::PageUp)
    } else if name == "rightarrow"@ || name == "->"@ || name == "right"@ {
        Some(Key::RightArrow)
    } else if name == "uparrow"@ || name == "up"@ {
        Some(Key::UpArrow)
    } else {
        None
    }
}

/// The key that `name` denotes where it is an alias of one of the twelve function keys.
pub open spec fn function_key(name: Seq<char>) -> Option<Key> {
    if name == "f1"@ {
        Some(Key::F1)
    } else if name == "f2"@ {
        Some(Key::F2)
    } else if name == "f3"@ {
        Some(Key::F3)
    } else if name == "f4"@ {
        Some(Key::F4)
    } else if name == "f5"@ {
        Some(Key::F5)
    } else if name == "f6"@ {
        Some(Key::F6)
    } else if name == "f7"@ {
        Some(Key::F7)
    } else if name == "f8"@ {
        Some(Key::F8)
    } else if name == "f9"@ {
        Some(Key::F9)
    } else if name == "f10"@ {
        Some(Key::F10)
    } else if name == "f11"@ {
        Some(Key::F11)
    } else if name == "f12"@ {
        Some(Key::F12)
    } else {
        None
    }
}

/// The key that `name` denotes where it is an alias of a key of the digit row.
pub open spec fn digit_key(name: Seq<char>) -> Option<Key> {
    if name == "1"@ {
        Some(Key::Num1)
    } else if name == "2"@ {
        Some(Key::Num2)
    } else if name == "3"@ {
        Some(Key::Num3)
    } else if name == "4"@ {
        Some(Key::Num4)
    } else if name == "5"@ {
        Some(Key::Num5)
    } else if name == "6"@ {
        Some(Key::Num6)
    } else if name == "7"@ {
        Some(Key::Num7)
    } else if name == "8"@ {
        Some(Key::Num8)
    } else if name == "9"@ {
        Some(Key::Num9)
    } else if name == "0"@ {
        Some(Key::Num0)
    } else {
        None
    }
}

/// The key that `name` denotes where it is an alias of a letter key.
pub open spec fn letter_key(name: Seq<char>) -> Option<Key> {
    if name == "q"@ {
        Some(Key::KeyQ)
    } else if name == "w"@ {
        Some(Key::KeyW)
    } else if name == "e"@ {
        Some(Key::KeyE)
    } else if name == "r"@ {
        Some(Key::KeyR)
    } else if name == "t"@ {
        Some(Key::KeyT)
    } else if name == "y"@ {
        Some(Key::KeyY)
    } else if name == "u"@ {
        Some(Key::KeyU)
    } else if name == "i"@ {
        Some(Key::KeyI)
    } else if name == "o"@ {
        Some(Key::KeyO)
    } else if name == "p"@ {
        Some(Key::KeyP)
    } else if name == "a"@ {
        Some(Key::KeyA)
    } else if name == "s"@ {
        Some(Key::KeyS)
    } else if name == "d"@ {
        Some(Key::KeyD)
    } else if name == "f"@ {
        Some(Key::KeyF)
    } else if name == "g"@ {
        Some(Key::KeyG)
    } else if name == "h"@ {
        Some(Key::KeyH)
    } else if name == "j"@ {
        Some(Key::KeyJ)
    } else if name == "k"@ {
        Some(Key::KeyK)
    } else if name == "l"@ {
        Some(Key::KeyL)
    } else if name == "z"@ {
        Some(Key::KeyZ)
    } else if name == "x"@ {
        Some(Key::KeyX)
    } else if name == "c"@ {
        Some(Key::KeyC)
    } else if name == "v"@ {
        Some(Key::KeyV)
    } else if name == "b"@ {
        Some(Key::KeyB)
    } else if name == "n"@ {
        Some(Key::KeyN)
    } else if name == "m"@ {
        Some(Key::KeyM)
    } else {
        None
    }
}

/// The key that `name` denotes where it is an alias of a punctuation key.
pub open spec fn symbol_key(name: Seq<char>) -> Option<Key> {
    if name == "backquote"@ {
        Some(Key::BackQuote)
    } else if name == "minus"@ || name == "-"@ {
        Some(Key::Minus)
    } else if name == "equal"@ || name == "="@ {
        Some(Key::Equal)
    } else if name == "leftbracket"@ || name == "("@ {
        Some(Key::LeftBracket)
    } else if name == "rightbracket"@ || name == ")"@ {
        Some(Key::RightBracket)
    } else if name == "semicolon"@ || name == ";"@ {
        Some(Key::SemiColon)
    } else if name == "quote"@ || name == "´"@ {
        Some(Key::Quote)
    } else if name == "backslash"@ || name == "\\"@ {
        Some(Key::BackSlash)
    } else if name == "intlbackslash"@ {
        Some(Key::IntlBackslash)
    } else if name == "comma"@ || name == ","@ {
        Some(Key::Comma)
    } else if name == "dot"@ || name == "."@ {
        Some(Key::Dot)
    } else if name == "slash"@ || name == "/"@ {
        Some(Key::Slash)
    } else {
        None
    }
}

/// The key that `name` denotes where it is an alias of a key of the numeric pad.
pub open spec fn keypad_key(name: Seq<char>) -> Option<Key> {
    if name == "numreturn"@ {
        Some(Key::KpReturn)
    } else if name == "numminus"@ {
        Some(Key::KpMinus)
    } else if name == "numplus"@ {
        Some(Key::KpPlus)
    } else if name == "nummultiply"@ {
        Some(Key::KpMultiply)
    } else if name == "numdivide"@ {
        Some(Key::KpDivide)
    } else if name == "num0"@ {
        Some(Key::Kp0)
    } else if name == "num1"@ {
        Some(Key::Kp1)
    } else if name == "num2"@ {
        Some(Key::Kp2)
    } else if name == "num3"@ {
        Some(Key::Kp3)
    } else if name == "num4"@ {
        Some(Key::Kp4)
    } else if name == "num5"@ {
        Some(Key::Kp5)
    } else if name == "num6"@ {
        Some(Key::Kp6)
    } else if name == "num7"@ {
        Some(Key::Kp7)
    } else if name == "num8"@ {
        Some(Key::Kp8)
    } else if name == "num9"@ {
        Some(Key::Kp9)
    } else if name == "numdelete"@ {
        Some(Key::KpDelete)
    } else {
        None
    }
}

/// The key that an alias denotes. Aliases are written in lowercase; a text
/// that is no alias denotes no key.
pub open spec fn named_key(name: Seq<char>) -> Option<Key> {
    if modifier_key(name) is Some {
        modifier_key(name)
    } else if editing_key(name) is Some {
        editing_key(name)
    } else if navigation_key(name) is Some {
        navigation_key(name)
    } else if function_key(name) is Some {
        function_key(name)
    } else if digit_key(name) is Some {
        digit_key(name)
    } else if letter_key(name) is Some {
        letter_key(name)
    } else if symbol_key(name) is Some {
        symbol_key(name)
    } else if keypad_key(name) is Some {
        keypad_key(name)
    } else {
        None
    }
}

/// Looks `name` up among the aliases.
pub fn lookup(name: &str) -> (r: Option<Key>)
    ensures
        r == named_key(name@),
{
    let found = modifier_key_of(name);
    if found.is_some() {
        return found;
    }
    let found = editing_key_of(name);
    if found.is_some() {
        return found;
    }
    let found = navigation_key_of(name);
    if found.is_some() {
        return found;
    }
    let found = function_key_of(name);
    if found.is_some() {
        return found;
    }
    let found = digit_key_of(name);
    if found.is_some() {
        return found;
    }
    let found = letter_key_of(name);
    if found.is_some() {
        return found;
    }
    let found = symbol_key_of(name);
    if found.is_some() {
        return found;
    }
    let found = keypad_key_of(name);
    if found.is_some() {
        return found;
    }
    None
}

fn modifier_key_of(name: &str) -> (r: Option<Key>)
    ensures
        r == modifier_key(name@),
{
    if same_text(name, "alt") {
        Some(Key::Alt)
    } else if same_text(name, "altgr") {
        Some(Key::AltGr)
    } else if same_text(name, "capslock") {
        Some(Key::CapsLock)
    } else if same_text(name, "controlleft") || same_text(name, "control")
        || same_text(name, "ctrl") {
        Some(Key::ControlLeft)
    } else if same_text(name, "controlright") {
        Some(Key::ControlRight)
    } else if same_text(name, "metaleft") || same_text(name, "windowsleft")
        || same_text(name, "windows") || same_text(name, "meta") {
        Some(Key::MetaLeft)
    } else if same_text(name, "metaright") || same_text(name, "windowsright") {
        Some(Key::MetaRight)
    } else if same_text(name, "shiftleft") || same_text(name, "shift") {
        Some(Key::ShiftLeft)
    } else if same_text(name, "shiftright") {
        Some(Key::ShiftRight)
    } else if same_text(name, "numlock") {
        Some(Key::NumLock)
    } else if same_text(name, "scrolllock") || same_text(name, "roll") {
        Some(Key::ScrollLock)
    } else if same_text(name, "function") {
        Some(Key::Function)
    } else {
        None
    }
}

fn editing_key_of(name: &str) -> (r: Option<Key>)
    ensures
        r == editing_key(name@),
{
    if same_text(name, "backspace") {
        Some(Key::Backspace)
    } else if same_text(name, "delete") || same_text(name, "del") {
        Some(Key::Delete)
    } else if same_text(name, "escape") {
        Some(Key::Escape)
    } else if same_text(name, "insert") {
        Some(Key::Insert)
    } else if same_text(name, "return") {
        Some(Key::Return)
    } else if same_text(name, "space") || same_text(name, " ") {
        Some(Key::Space)
    } else if same_text(name, "tab") {
        Some(Key::Tab)
    } else if same_text(name, "printscreen") || same_text(name, "print") {
        Some(Key::PrintScreen)
    } else if same_text(name, "pause") {
        Some(Key::Pause)
    } else {
        None
    }
}

fn navigation_key_of(name: &str) -> (r: Option<Key>)
    ensures
        r == navigation_key(name@),
{
    if same_text(name, "downarrow") || same_text(name, "down") {
        Some(Key::DownArrow)
    } else if same_text(name, "end") {
        Some(Key::End)
    } else if same_text(name, "home") {
        Some(Key::Home)
    } else if same_text(name, "leftarrow") || same_text(name, "<-") || same_text(name, "left") {
        Some(Key::LeftArrow)
    } else if same_text(name, "pagedown") {
        Some(Key::PageDown)
    } else if same_text(name, "pageup") {
        Some(Key::PageUp)
    } else if same_text(name, "rightarrow") || same_text(name, "->") || same_text(name, "right") {
        Some(Key::RightArrow)
    } else if same_text(name, "uparrow") || same_text(name, "up") {
        Some(Key::UpArrow)
    } else {
        None
    }
}

fn function_key_of(name: &str) -> (r: Option<Key>)
    ensures
        r == function_key(name@),
{
    if same_text(name, "f1") {
        Some(Key::F1)
    } else if same_text(name, "f2") {
        Some(Key::F2)
    } else if same_text(name, "f3") {
        Some(Key::F3)
    } else if same_text(name, "f4") {
        Some(Key::F4)
    } else if same_text(name, "f5") {
        Some(Key::F5)
    } else if same_text(name, "f6") {
        Some(Key::F6)
    } else if same_text(name, "f7") {
        Some(Key::F7)
    } else if same_text(name, "f8") {
        Some(Key::F8)
    } else if same_text(name, "f9") {
        Some(Key::F9)
    } else if same_text(name, "f10") {
        Some(Key::F10)
    } else if same_text(name, "f11") {
        Some(Key::F11)
    } else if same_text(name, "f12") {
        Some(Key::F12)
    } else {
        None
    }
}

fn digit_key_of(name: &str) -> (r: Option<Key>)
    ensures
        r == digit_key(name@),
{
    if same_text(name, "1") {
        Some(Key::Num1)
    } else if same_text(name, "2") {
        Some(Key::Num2)
    } else if same_text(name, "3") {
        Some(Key::Num3)
    } else if same_text(name, "4") {
        Some(Key::Num4)
    } else if same_text(name, "5") {
        Some(Key::Num5)
    } else if same_text(name, "6") {
        Some(Key::Num6)
    } else if same_text(name, "7") {
        Some(Key::Num7)
    } else if same_text(name, "8") {
        Some(Key::Num8)
    } else if same_text(name, "9") {
        Some(Key::Num9)
    } else if same_text(name, "0") {
        Some(Key::Num0)
    } else {
        None
    }
}

fn letter_key_of(name: &str) -> (r: Option<Key>)
    ensures
        r == letter_key(name@),
{
    if same_text(name, "q") {
        Some(Key::KeyQ)
    } else if same_text(name, "w") {
        Some(Key::KeyW)
    } else if same_text(name, "e") {
        Some(Key::KeyE)
    } else if same_text(name, "r") {
        Some(Key::KeyR)
    } else if same_text(name, "t") {
        Some(Key::KeyT)
    } else if same_text(name, "y") {
        Some(Key::KeyY)
    } else if same_text(name, "u") {
        Some(Key::KeyU)
    } else if same_text(name, "i") {
        Some(Key::KeyI)
    } else if same_text(name, "o") {
        Some(Key::KeyO)
    } else if same_text(name, "p") {
        Some(Key::KeyP)
    } else if same_text(name, "a") {
        Some(Key::KeyA)
    } else if same_text(name, "s") {
        Some(Key::KeyS)
    } else if same_text(name, "d") {
        Some(Key::KeyD)
    } else if same_text(name, "f") {
        Some(Key::KeyF)
    } else if same_text(name, "g") {
        Some(Key::KeyG)
    } else if same_text(name, "h") {
        Some(Key::KeyH)
    } else if same_text(name, "j") {
        Some(Key::KeyJ)
    } else if same_text(name, "k") {
        Some(Key::KeyK)
    } else if same_text(name, "l") {
        Some(Key::KeyL)
    } else if same_text(name, "z") {
        Some(Key::KeyZ)
    } else if same_text(name, "x") {
        Some(Key::KeyX)
    } else if same_text(name, "c") {
        Some(Key::KeyC)
    } else if same_text(name, "v") {
        Some(Key::KeyV)
    } else if same_text(name, "b") {
        Some(Key::KeyB)
    } else if same_text(name, "n") {
        Some(Key::KeyN)
    } else if same_text(name, "m") {
        Some(Key::KeyM)
    } else {
        None
    }
}

fn symbol_key_of(name: &str) -> (r: Option<Key>)
    ensures
        r == symbol_key(name@),
{
    if same_text(name, "backquote") {
        Some(Key::BackQuote)
    } else if same_text(name, "minus") || same_text(name, "-") {
        Some(Key::Minus)
    } else if same_text(name, "equal") || same_text(name, "=") {
        Some(Key::Equal)
    } else if same_text(name, "leftbracket") || same_text(name, "(") {
        Some(Key::LeftBracket)
    } else if same_text(name, "rightbracket") || same_text(name, ")") {
        Some(Key::RightBracket)
    } else if same_text(name, "semicolon") || same_text(name, ";") {
        Some(Key::SemiColon)
    } else if same_text(name, "quote") || same_text(name, "´") {
        Some(Key::Quote)
    } else if same_text(name, "backslash") || same_text(name, "\\") {
        Some(Key::BackSlash)
    } else if same_text(name, "intlbackslash") {
        Some(Key::IntlBackslash)
    } else if same_text(name, "comma") || same_text(name, ",") {
        Some(Key::Comma)
    } else if same_text(name, "dot") || same_text(name, ".") {
        Some(Key::Dot)
    } else if same_text(name, "slash") || same_text(name, "/") {
        Some(Key::Slash)
    } else {
        None
    }
}

fn keypad_key_of(name: &str) -> (r: Option<Key>)
    ensures
        r == keypad_key(name@),
{
    if same_text(name, "numreturn") {
        Some(Key::KpReturn)
    } else if same_text(name, "numminus") {
        Some(Key::KpMinus)
    } else if same_text(name, "numplus") {
        Some(Key::KpPlus)
    } else if same_text(name, "nummultiply") {
        Some(Key::KpMultiply)
    } else if same_text(name, "numdivide") {
        Some(Key::KpDivide)
    } else if same_text(name, "num0") {
        Some(Key::Kp0)
    } else if same_text(name, "num1") {
        Some(Key::Kp1)
    } else if same_text(name, "num2") {
        Some(Key::Kp2)
    } else if same_text(name, "num3") {
        Some(Key::Kp3)
    } else if same_text(name, "num4") {
        Some(Key::Kp4)
    } else if same_text(name, "num5") {
        Some(Key::Kp5)
    } else if same_text(name, "num6") {
        Some(Key::Kp6)
    } else if same_text(name, "num7") {
        Some(Key::Kp7)
    } else if same_text(name, "num8") {
        Some(Key::Kp8)
    } else if same_text(name, "num9") {
        Some(Key::Kp9)
    } else if same_text(name, "numdelete") {
        Some(Key::KpDelete)
    } else {
        None
    }
}
/// Whether `name` is one of the aliases declared for `key`. A raw key code has
/// no alias: it is written in the escape form.
pub open spec fn is_alias(name: Seq<char>, key: Key) -> bool {
    match key {
        Key::Alt => name == "alt"@,
        Key::AltGr => name == "altgr"@,
        Key::CapsLock => name == "capslock"@,
        Key::ControlLeft => name == "controlleft"@ || name == "control"@ || name == "ctrl"@,
        Key::ControlRight => name == "controlright"@,
        Key::MetaLeft => name == "metaleft"@ || name == "windowsleft"@ || name == "windows"@
            || name == "meta"@,
        Key::MetaRight => name == "metaright"@ || name == "windowsright"@,
        Key::ShiftLeft => name == "shiftleft"@ || name == "shift"@,
        Key::ShiftRight => name == "shiftright"@,
        Key::NumLock => name == "numlock"@,
        Key::ScrollLock => name == "scrolllock"@ || name == "roll"@,
        Key::Function => name == "function"@,
        Key::Backspace => name == "backspace"@,
        Key::Delete => name == "delete"@ || name == "del"@,
        Key::Escape => name == "escape"@,
        Key::Insert => name == "insert"@,
        Key::Return => name == "return"@,
        Key::Space => name == "space"@ || name == " "@,
        Key::Tab => name == "tab"@,
        Key::PrintScreen => name == "printscreen"@ || name == "print"@,
        Key::Pause => name == "pause"@,
        Key::DownArrow => name == "downarrow"@ || name == "down"@,
        Key::End => name == "end"@,
        Key::Home => name == "home"@,
        Key::LeftArrow => name == "leftarrow"@ || name == "<-"@ || name == "left"@,
        Key::PageDown => name == "pagedown"@,
        Key::PageUp => name == "pageup"@,
        Key::RightArrow => name == "rightarrow"@ || name == "->"@ || name == "right"@,
        Key::UpArrow => name == "uparrow"@ || name == "up"@,
        Key::F1 => name == "f1"@,
        Key::F2 => name == "f2"@,
        Key::F3 => name == "f3"@,
        Key::F4 => name == "f4"@,
        Key::F5 => name == "f5"@,
        Key::F6 => name == "f6"@,
        Key::F7 => name == "f7"@,
        Key::F8 => name == "f8"@,
        Key::F9 => name == "f9"@,
        Key::F10 => name == "f10"@,
        Key::F11 => name == "f11"@,
        Key::F12 => name == "f12"@,
        Key::Num1 => name == "1"@,
        Key::Num2 => name == "2"@,
        Key::Num3 => name == "3"@,
        Key::Num4 => name == "4"@,
        Key::Num5 => name == "5"@,
        Key::Num6 => name == "6"@,
        Key::Num7 => name == "7"@,
        Key::Num8 => name == "8"@,
        Key::Num9 => name == "9"@,
        Key::Num0 => name == "0"@,
        Key::KeyQ => name == "q"@,
        Key::KeyW => name == "w"@,
        Key::KeyE => name == "e"@,
        Key::KeyR => name == "r"@,
        Key::KeyT => name == "t"@,
        Key::KeyY => name == "y"@,
        Key::KeyU => name == "u"@,
        Key::KeyI => name == "i"@,
        Key::KeyO => name == "o"@,
        Key::KeyP => name == "p"@,
        Key::KeyA => name == "a"@,
        Key::KeyS => name == "s"@,
        Key::KeyD => name == "d"@,
        Key::KeyF => name == "f"@,
        Key::KeyG => name == "g"@,
        Key::KeyH => name == "h"@,
        Key::KeyJ => name == "j"@,
        Key::KeyK => name == "k"@,
        Key::KeyL => name == "l"@,
        Key::KeyZ => name == "z"@,
        Key::KeyX => name == "x"@,
        Key::KeyC => name == "c"@,
        Key::KeyV => name == "v"@,
        Key::KeyB => name == "b"@,
        Key::KeyN => name == "n"@,
        Key::KeyM => name == "m"@,
        Key::BackQuote => name == "backquote"@,
        Key::Minus => name == "minus"@ || name == "-"@,
        Key::Equal => name == "equal"@ || name == "="@,
        Key::LeftBracket => name == "leftbracket"@ || name == "("@,
        Key::RightBracket => name == "rightbracket"@ || name == ")"@,
        Key::SemiColon => name == "semicolon"@ || name == ";"@,
        Key::Quote => name == "quote"@ || name == "´"@,
        Key::BackSlash => name == "backslash"@ || name == "\\"@,
        Key::IntlBackslash => name == "intlbackslash"@,
        Key::Comma => name == "comma"@ || name == ","@,
        Key::Dot => name == "dot"@ || name == "."@,
        Key::Slash => name == "slash"@ || name == "/"@,
        Key::KpReturn => name == "numreturn"@,
        Key::KpMinus => name == "numminus"@,
        Key::KpPlus => name == "numplus"@,
        Key::KpMultiply => name == "nummultiply"@,
        Key::KpDivide => name == "numdivide"@,
        Key::Kp0 => name == "num0"@,
        Key::Kp1 => name == "num1"@,
        Key::Kp2 => name == "num2"@,
        Key::Kp3 => name == "num3"@,
        Key::Kp4 => name == "num4"@,
        Key::Kp5 => name == "num5"@,
        Key::Kp6 => name == "num6"@,
        Key::Kp7 => name == "num7"@,
        Key::Kp8 => name == "num8"@,
        Key::Kp9 => name == "num9"@,
        Key::KpDelete => name == "numdelete"@,
        Key::Unknown(_) => false,
    }
}

/// The length and the characters of each alias of a modifier or lock key.
proof fn modifier_spellings()
    ensures
        "alt"@.len() == 3 && "alt"@[0] == 'a' && "alt"@[1] == 'l' && "alt"@[2] == 't',
        "altgr"@.len() == 5 && "altgr"@[0] == 'a' && "altgr"@[1] == 'l' && "altgr"@[2] == 't'
            && "altgr"@[3] == 'g' && "altgr"@[4] == 'r',
        "capslock"@.len() == 8 && "capslock"@[0] == 'c' && "capslock"@[1] == 'a'
            && "capslock"@[2] == 'p' && "capslock"@[3] == 's' && "capslock"@[4] == 'l'
            && "capslock"@[5] == 'o' && "capslock"@[6] == 'c' && "capslock"@[7] == 'k',
        "controlleft"@.len() == 11 && "controlleft"@[0] == 'c' && "controlleft"@[1] == 'o'
            && "controlleft"@[2] == 'n' && "controlleft"@[3] == 't' && "controlleft"@[4] == 'r'
            && "controlleft"@[5] == 'o' && "controlleft"@[6] == 'l' && "controlleft"@[7] == 'l'
            && "controlleft"@[8] == 'e' && "controlleft"@[9] == 'f' && "controlleft"@[10] == 't',
        "control"@.len() == 7 && "control"@[0] == 'c' && "control"@[1] == 'o'
            && "control"@[2] == 'n' && "control"@[3] == 't' && "control"@[4] == 'r'
            && "control"@[5] == 'o' && "control"@[6] == 'l',
        "ctrl"@.len() == 4 && "ctrl"@[0] == 'c' && "ctrl"@[1] == 't' && "ctrl"@[2] == 'r'
            && "ctrl"@[3] == 'l',
        "controlright"@.len() == 12 && "controlright"@[0] == 'c' && "controlright"@[1] == 'o'
            && "controlright"@[2] == 'n' && "controlright"@[3] == 't' && "controlright"@[4] == 'r'
            && "controlright"@[5] == 'o' && "controlright"@[6] == 'l' && "controlright"@[7] == 'r'
            && "controlright"@[8] == 'i' && "controlright"@[9] == 'g' && "controlright"@[10] == 'h'
            && "controlright"@[11] == 't',
        "metaleft"@.len() == 8 && "metaleft"@[0] == 'm' && "metaleft"@[1] == 'e'
            && "metaleft"@[2] == 't' && "metaleft"@[3] == 'a' && "metaleft"@[4] == 'l'
            && "metaleft"@[5] == 'e' && "metaleft"@[6] == 'f' && "metaleft"@[7] == 't',
        "windowsleft"@.len() == 11 && "windowsleft"@[0] == 'w' && "windowsleft"@[1] == 'i'
            && "windowsleft"@[2] == 'n' && "windowsleft"@[3] == 'd' && "windowsleft"@[4] == 'o'
            && "windowsleft"@[5] == 'w' && "windowsleft"@[6] == 's' && "windowsleft"@[7] == 'l'
            && "windowsleft"@[8] == 'e' && "windowsleft"@[9] == 'f' && "windowsleft"@[10] == 't',
        "windows"@.len() == 7 && "windows"@[0] == 'w' && "windows"@[1] == 'i'
            && "windows"@[2] == 'n' && "windows"@[3] == 'd' && "windows"@[4] == 'o'
            && "windows"@[5] == 'w' && "windows"@[6] == 's',
        "meta"@.len() == 4 && "meta"@[0] == 'm' && "meta"@[1] == 'e' && "meta"@[2] == 't'
            && "meta"@[3] == 'a',
        "metaright"@.len() == 9 && "metaright"@[0] == 'm' && "metaright"@[1] == 'e'
            && "metaright"@[2] == 't' && "metaright"@[3] == 'a' && "metaright"@[4] == 'r'
            && "metaright"@[5] == 'i' && "metaright"@[6] == 'g' && "metaright"@[7] == 'h'
            && "metaright"@[8] == 't',
        "windowsright"@.len() == 12 && "windowsright"@[0] == 'w' && "windowsright"@[1] == 'i'
            && "windowsright"@[2] == 'n' && "windowsright"@[3] == 'd' && "windowsright"@[4] == 'o'
            && "windowsright"@[5] == 'w' && "windowsright"@[6] == 's' && "windowsright"@[7] == 'r'
            && "windowsright"@[8] == 'i' && "windowsright"@[9] == 'g' && "windowsright"@[10] == 'h'
            && "windowsright"@[11] == 't',
        "shiftleft"@.len() == 9 && "shiftleft"@[0] == 's' && "shiftleft"@[1] == 'h'
            && "shiftleft"@[2] == 'i' && "shiftleft"@[3] == 'f' && "shiftleft"@[4] == 't'
            && "shiftleft"@[5] == 'l' && "shiftleft"@[6] == 'e' && "shiftleft"@[7] == 'f'
            && "shiftleft"@[8] == 't',
        "shift"@.len() == 5 && "shift"@[0] == 's' && "shift"@[1] == 'h' && "shift"@[2] == 'i'
            && "shift"@[3] == 'f' && "shift"@[4] == 't',
        "shiftright"@.len() == 10 && "shiftright"@[0] == 's' && "shiftright"@[1] == 'h'
            && "shiftright"@[2] == 'i' && "shiftright"@[3] == 'f' && "shiftright"@[4] == 't'
            && "shiftright"@[5] == 'r' && "shiftright"@[6] == 'i' && "shiftright"@[7] == 'g'
            && "shiftright"@[8] == 'h' && "shiftright"@[9] == 't',
        "numlock"@.len() == 7 && "numlock"@[0] == 'n' && "numlock"@[1] == 'u'
            && "numlock"@[2] == 'm' && "numlock"@[3] == 'l' && "numlock"@[4] == 'o'
            && "numlock"@[5] == 'c' && "numlock"@[6] == 'k',
        "scrolllock"@.len() == 10 && "scrolllock"@[0] == 's' && "scrolllock"@[1] == 'c'
            && "scrolllock"@[2] == 'r' && "scrolllock"@[3] == 'o' && "scrolllock"@[4] == 'l'
            && "scrolllock"@[5] == 'l' && "scrolllock"@[6] == 'l' && "scrolllock"@[7] == 'o'
            && "scrolllock"@[8] == 'c' && "scrolllock"@[9] == 'k',
        "roll"@.len() == 4 && "roll"@[0] == 'r' && "roll"@[1] == 'o' && "roll"@[2] == 'l'
            && "roll"@[3] == 'l',
        "function"@.len() == 8 && "function"@[0] == 'f' && "function"@[1] == 'u'
            && "function"@[2] == 'n' && "function"@[3] == 'c' && "function"@[4] == 't'
            && "function"@[5] == 'i' && "function"@[6] == 'o' && "function"@[7] == 'n',
{
    reveal_strlit("alt");
    reveal_strlit("altgr");
    reveal_strlit("capslock");
    reveal_strlit("controlleft");
    reveal_strlit("control");
    reveal_strlit("ctrl");
    reveal_strlit("controlright");
    reveal_strlit("metaleft");
    reveal_strlit("windowsleft");
    reveal_strlit("windows");
    reveal_strlit("meta");
    reveal_strlit("metaright");
    reveal_strlit("windowsright");
    reveal_strlit("shiftleft");
    reveal_strlit("shift");
    reveal_strlit("shiftright");
    reveal_strlit("numlock");
    reveal_strlit("scrolllock");
    reveal_strlit("roll");
    reveal_strlit("function");
}

/// The length and the characters of each alias of an editing or system key.
proof fn editing_spellings()
    ensures
        "backspace"@.len() == 9 && "backspace"@[0] == 'b' && "backspace"@[1] == 'a'
            && "backspace"@[2] == 'c' && "backspace"@[3] == 'k' && "backspace"@[4] == 's'
            && "backspace"@[5] == 'p' && "backspace"@[6] == 'a' && "backspace"@[7] == 'c'
            && "backspace"@[8] == 'e',
        "delete"@.len() == 6 && "delete"@[0] == 'd' && "delete"@[1] == 'e' && "delete"@[2] == 'l'
            && "delete"@[3] == 'e' && "delete"@[4] == 't' && "delete"@[5] == 'e',
        "del"@.len() == 3 && "del"@[0] == 'd' && "del"@[1] == 'e' && "del"@[2] == 'l',
        "escape"@.len() == 6 && "escape"@[0] == 'e' && "escape"@[1] == 's' && "escape"@[2] == 'c'
            && "escape"@[3] == 'a' && "escape"@[4] == 'p' && "escape"@[5] == 'e',
        "insert"@.len() == 6 && "insert"@[0] == 'i' && "insert"@[1] == 'n' && "insert"@[2] == 's'
            && "insert"@[3] == 'e' && "insert"@[4] == 'r' && "insert"@[5] == 't',
        "return"@.len() == 6 && "return"@[0] == 'r' && "return"@[1] == 'e' && "return"@[2] == 't'
            && "return"@[3] == 'u' && "return"@[4] == 'r' && "return"@[5] == 'n',
        "space"@.len() == 5 && "space"@[0] == 's' && "space"@[1] == 'p' && "space"@[2] == 'a'
            && "space"@[3] == 'c' && "space"@[4] == 'e',
        " "@.len() == 1 && " "@[0] == ' ',
        "tab"@.len() == 3 && "tab"@[0] == 't' && "tab"@[1] == 'a' && "tab"@[2] == 'b',
        "printscreen"@.len() == 11 && "printscreen"@[0] == 'p' && "printscreen"@[1] == 'r'
            && "printscreen"@[2] == 'i' && "printscreen"@[3] == 'n' && "printscreen"@[4] == 't'
            && "printscreen"@[5] == 's' && "printscreen"@[6] == 'c' && "printscreen"@[7] == 'r'
            && "printscreen"@[8] == 'e' && "printscreen"@[9] == 'e' && "printscreen"@[10] == 'n',
        "print"@.len() == 5 && "print"@[0] == 'p' && "print"@[1] == 'r' && "print"@[2] == 'i'
            && "print"@[3] == 'n' && "print"@[4] == 't',
        "pause"@.len() == 5 && "pause"@[0] == 'p' && "pause"@[1] == 'a' && "pause"@[2] == 'u'
            && "pause"@[3] == 's' && "pause"@[4] == 'e',
{
    reveal_strlit("backspace");
    reveal_strlit("delete");
    reveal_strlit("del");
    reveal_strlit("escape");
    reveal_strlit("insert");
    reveal_strlit("return");
    reveal_strlit("space");
    reveal_strlit(" ");
    reveal_strlit("tab");
    reveal_strlit("printscreen");
    reveal_strlit("print");
    reveal_strlit("pause");
}

/// The length and the characters of each alias of a cursor key.
proof fn navigation_spellings()
    ensures
        "downarrow"@.len() == 9 && "downarrow"@[0] == 'd' && "downarrow"@[1] == 'o'
            && "downarrow"@[2] == 'w' && "downarrow"@[3] == 'n' && "downarrow"@[4] == 'a'
            && "downarrow"@[5] == 'r' && "downarrow"@[6] == 'r' && "downarrow"@[7] == 'o'
            && "downarrow"@[8] == 'w',
        "down"@.len() == 4 && "down"@[0] == 'd' && "down"@[1] == 'o' && "down"@[2] == 'w'
            && "down"@[3] == 'n',
        "end"@.len() == 3 && "end"@[0] == 'e' && "end"@[1] == 'n' && "end"@[2] == 'd',
        "home"@.len() == 4 && "home"@[0] == 'h' && "home"@[1] == 'o' && "home"@[2] == 'm'
            && "home"@[3] == 'e',
        "leftarrow"@.len() == 9 && "leftarrow"@[0] == 'l' && "leftarrow"@[1] == 'e'
            && "leftarrow"@[2] == 'f' && "leftarrow"@[3] == 't' && "leftarrow"@[4] == 'a'
            && "leftarrow"@[5] == 'r' && "leftarrow"@[6] == 'r' && "leftarrow"@[7] == 'o'
            && "leftarrow"@[8] == 'w',
        "<-"@.len() == 2 && "<-"@[0] == '<' && "<-"@[1] == '-',
        "left"@.len() == 4 && "left"@[0] == 'l' && "left"@[1] == 'e' && "left"@[2] == 'f'
            && "left"@[3] == 't',
        "pagedown"@.len() == 8 && "pagedown"@[0] == 'p' && "pagedown"@[1] == 'a'
            && "pagedown"@[2] == 'g' && "pagedown"@[3] == 'e' && "pagedown"@[4] == 'd'
            && "pagedown"@[5] == 'o' && "pagedown"@[6] == 'w' && "pagedown"@[7] == 'n',
        "pageup"@.len() == 6 && "pageup"@[0] == 'p' && "pageup"@[1] == 'a' && "pageup"@[2] == 'g'
            && "pageup"@[3] == 'e' && "pageup"@[4] == 'u' && "pageup"@[5] == 'p',
        "rightarrow"@.len() == 10 && "rightarrow"@[0] == 'r' && "rightarrow"@[1] == 'i'
            && "rightarrow"@[2] == 'g' && "rightarrow"@[3] == 'h' && "rightarrow"@[4] == 't'
            && "rightarrow"@[5] == 'a' && "rightarrow"@[6] == 'r' && "rightarrow"@[7] == 'r'
            && "rightarrow"@[8] == 'o' && "rightarrow"@[9] == 'w',
        "->"@.len() == 2 && "->"@[0] == '-' && "->"@[1] == '>',
        "right"@.len() == 5 && "right"@[0] == 'r' && "right"@[1] == 'i' && "right"@[2] == 'g'
            && "right"@[3] == 'h' && "right"@[4] == 't',
        "uparrow"@.len() == 7 && "uparrow"@[0] == 'u' && "uparrow"@[1] == 'p'
            && "uparrow"@[2] == 'a' && "uparrow"@[3] == 'r' && "uparrow"@[4] == 'r'
            && "uparrow"@[5] == 'o' && "uparrow"@[6] == 'w',
        "up"@.len() == 2 && "up"@[0] == 'u' && "up"@[1] == 'p',
{
    reveal_strlit("downarrow");
    reveal_strlit("down");
    reveal_strlit("end");
    reveal_strlit("home");
    reveal_strlit("leftarrow");
    reveal_strlit("<-");
    reveal_strlit("left");
    reveal_strlit("pagedown");
    reveal_strlit("pageup");
    reveal_strlit("rightarrow");
    reveal_strlit("->");
    reveal_strlit("right");
    reveal_strlit("uparrow");
    reveal_strlit("up");
}

/// The length and the characters of each alias of one of the twelve function keys.
proof fn function_spellings()
    ensures
        "f1"@.len() == 2 && "f1"@[0] == 'f' && "f1"@[1] == '1',
        "f2"@.len() == 2 && "f2"@[0] == 'f' && "f2"@[1] == '2',
        "f3"@.len() == 2 && "f3"@[0] == 'f' && "f3"@[1] == '3',
        "f4"@.len() == 2 && "f4"@[0] == 'f' && "f4"@[1] == '4',
        "f5"@.len() == 2 && "f5"@[0] == 'f' && "f5"@[1] == '5',
        "f6"@.len() == 2 && "f6"@[0] == 'f' && "f6"@[1] == '6',
        "f7"@.len() == 2 && "f7"@[0] == 'f' && "f7"@[1] == '7',
        "f8"@.len() == 2 && "f8"@[0] == 'f' && "f8"@[1] == '8',
        "f9"@.len() == 2 && "f9"@[0] == 'f' && "f9"@[1] == '9',
        "f10"@.len() == 3 && "f10"@[0] == 'f' && "f10"@[1] == '1' && "f10"@[2] == '0',
        "f11"@.len() == 3 && "f11"@[0] == 'f' && "f11"@[1] == '1' && "f11"@[2] == '1',
        "f12"@.len() == 3 && "f12"@[0] == 'f' && "f12"@[1] == '1' && "f12"@[2] == '2',
{
    reveal_strlit("f1");
    reveal_strlit("f2");
    reveal_strlit("f3");
    reveal_strlit("f4");
    reveal_strlit("f5");
    reveal_strlit("f6");
    reveal_strlit("f7");
    reveal_strlit("f8");
    reveal_strlit("f9");
    reveal_strlit("f10");
    reveal_strlit("f11");
    reveal_strlit("f12");
}

/// The length and the characters of each alias of a key of the digit row.
proof fn digit_spellings()
    ensures
        "1"@.len() == 1 && "1"@[0] == '1',
        "2"@.len() == 1 && "2"@[0] == '2',
        "3"@.len() == 1 && "3"@[0] == '3',
        "4"@.len() == 1 && "4"@[0] == '4',
        "5"@.len() == 1 && "5"@[0] == '5',
        "6"@.len() == 1 && "6"@[0] == '6',
        "7"@.len() == 1 && "7"@[0] == '7',
        "8"@.len() == 1 && "8"@[0] == '8',
        "9"@.len() == 1 && "9"@[0] == '9',
        "0"@.len() == 1 && "0"@[0] == '0',
{
    reveal_strlit("1");
    reveal_strlit("2");
    reveal_strlit("3");
    reveal_strlit("4");
    reveal_strlit("5");
    reveal_strlit("6");
    reveal_strlit("7");
    reveal_strlit("8");
    reveal_strlit("9");
    reveal_strlit("0");
}

/// The length and the characters of each alias of a letter key.
proof fn letter_spellings()
    ensures
        "q"@.len() == 1 && "q"@[0] == 'q',
        "w"@.len() == 1 && "w"@[0] == 'w',
        "e"@.len() == 1 && "e"@[0] == 'e',
        "r"@.len() == 1 && "r"@[0] == 'r',
        "t"@.len() == 1 && "t"@[0] == 't',
        "y"@.len() == 1 && "y"@[0] == 'y',
        "u"@.len() == 1 && "u"@[0] == 'u',
        "i"@.len() == 1 && "i"@[0] == 'i',
        "o"@.len() == 1 && "o"@[0] == 'o',
        "p"@.len() == 1 && "p"@[0] == 'p',
        "a"@.len() == 1 && "a"@[0] == 'a',
        "s"@.len() == 1 && "s"@[0] == 's',
        "d"@.len() == 1 && "d"@[0] == 'd',
        "f"@.len() == 1 && "f"@[0] == 'f',
        "g"@.len() == 1 && "g"@[0] == 'g',
        "h"@.len() == 1 && "h"@[0] == 'h',
        "j"@.len() == 1 && "j"@[0] == 'j',
        "k"@.len() == 1 && "k"@[0] == 'k',
        "l"@.len() == 1 && "l"@[0] == 'l',
        "z"@.len() == 1 && "z"@[0] == 'z',
        "x"@.len() == 1 && "x"@[0] == 'x',
        "c"@.len() == 1 && "c"@[0] == 'c',
        "v"@.len() == 1 && "v"@[0] == 'v',
        "b"@.len() == 1 && "b"@[0] == 'b',
        "n"@.len() == 1 && "n"@[0] == 'n',
        "m"@.len() == 1 && "m"@[0] == 'm',
{
    reveal_strlit("q");
    reveal_strlit("w");
    reveal_strlit("e");
    reveal_strlit("r");
    reveal_strlit("t");
    reveal_strlit("y");
    reveal_strlit("u");
    reveal_strlit("i");
    reveal_strlit("o");
    reveal_strlit("p");
    reveal_strlit("a");
    reveal_strlit("s");
    reveal_strlit("d");
    reveal_strlit("f");
    reveal_strlit("g");
    reveal_strlit("h");
    reveal_strlit("j");
    reveal_strlit("k");
    reveal_strlit("l");
    reveal_strlit("z");
    reveal_strlit("x");
    reveal_strlit("c");
    reveal_strlit("v");
    reveal_strlit("b");
    reveal_strlit("n");
    reveal_strlit("m");
}

/// The length and the characters of each alias of a punctuation key.
proof fn symbol_spellings()
    ensures
        "backquote"@.len() == 9 && "backquote"@[0] == 'b' && "backquote"@[1] == 'a'
            && "backquote"@[2] == 'c' && "backquote"@[3] == 'k' && "backquote"@[4] == 'q'
            && "backquote"@[5] == 'u' && "backquote"@[6] == 'o' && "backquote"@[7] == 't'
            && "backquote"@[8] == 'e',
        "minus"@.len() == 5 && "minus"@[0] == 'm' && "minus"@[1] == 'i' && "minus"@[2] == 'n'
            && "minus"@[3] == 'u' && "minus"@[4] == 's',
        "-"@.len() == 1 && "-"@[0] == '-',
        "equal"@.len() == 5 && "equal"@[0] == 'e' && "equal"@[1] == 'q' && "equal"@[2] == 'u'
            && "equal"@[3] == 'a' && "equal"@[4] == 'l',
        "="@.len() == 1 && "="@[0] == '=',
        "leftbracket"@.len() == 11 && "leftbracket"@[0] == 'l' && "leftbracket"@[1] == 'e'
            && "leftbracket"@[2] == 'f' && "leftbracket"@[3] == 't' && "leftbracket"@[4] == 'b'
            && "leftbracket"@[5] == 'r' && "leftbracket"@[6] == 'a' && "leftbracket"@[7] == 'c'
            && "leftbracket"@[8] == 'k' && "leftbracket"@[9] == 'e' && "leftbracket"@[10] == 't',
        "("@.len() == 1 && "("@[0] == '(',
        "rightbracket"@.len() == 12 && "rightbracket"@[0] == 'r' && "rightbracket"@[1] == 'i'
            && "rightbracket"@[2] == 'g' && "rightbracket"@[3] == 'h' && "rightbracket"@[4] == 't'
            && "rightbracket"@[5] == 'b' && "rightbracket"@[6] == 'r' && "rightbracket"@[7] == 'a'
            && "rightbracket"@[8] == 'c' && "rightbracket"@[9] == 'k' && "rightbracket"@[10] == 'e'
            && "rightbracket"@[11] == 't',
        ")"@.len() == 1 && ")"@[0] == ')',
        "semicolon"@.len() == 9 && "semicolon"@[0] == 's' && "semicolon"@[1] == 'e'
            && "semicolon"@[2] == 'm' && "semicolon"@[3] == 'i' && "semicolon"@[4] == 'c'
            && "semicolon"@[5] == 'o' && "semicolon"@[6] == 'l' && "semicolon"@[7] == 'o'
            && "semicolon"@[8] == 'n',
        ";"@.len() == 1 && ";"@[0] == ';',
        "quote"@.len() == 5 && "quote"@[0] == 'q' && "quote"@[1] == 'u' && "quote"@[2] == 'o'
            && "quote"@[3] == 't' && "quote"@[4] == 'e',
        "´"@.len() == 1 && "´"@[0] == '´',
        "backslash"@.len() == 9 && "backslash"@[0] == 'b' && "backslash"@[1] == 'a'
            && "backslash"@[2] == 'c' && "backslash"@[3] == 'k' && "backslash"@[4] == 's'
            && "backslash"@[5] == 'l' && "backslash"@[6] == 'a' && "backslash"@[7] == 's'
            && "backslash"@[8] == 'h',
        "\\"@.len() == 1 && "\\"@[0] == '\\',
        "intlbackslash"@.len() == 13 && "intlbackslash"@[0] == 'i' && "intlbackslash"@[1] == 'n'
            && "intlbackslash"@[2] == 't' && "intlbackslash"@[3] == 'l'
            && "intlbackslash"@[4] == 'b' && "intlbackslash"@[5] == 'a'
            && "intlbackslash"@[6] == 'c' && "intlbackslash"@[7] == 'k'
            && "intlbackslash"@[8] == 's' && "intlbackslash"@[9] == 'l'
            && "intlbackslash"@[10] == 'a' && "intlbackslash"@[11] == 's'
            && "intlbackslash"@[12] == 'h',
        "comma"@.len() == 5 && "comma"@[0] == 'c' && "comma"@[1] == 'o' && "comma"@[2] == 'm'
            && "comma"@[3] == 'm' && "comma"@[4] == 'a',
        ","@.len() == 1 && ","@[0] == ',',
        "dot"@.len() == 3 && "dot"@[0] == 'd' && "dot"@[1] == 'o' && "dot"@[2] == 't',
        "."@.len() == 1 && "."@[0] == '.',
        "slash"@.len() == 5 && "slash"@[0] == 's' && "slash"@[1] == 'l' && "slash"@[2] == 'a'
            && "slash"@[3] == 's' && "slash"@[4] == 'h',
        "/"@.len() == 1 && "/"@[0] == '/',
{
    reveal_strlit("backquote");
    reveal_strlit("minus");
    reveal_strlit("-");
    reveal_strlit("equal");
    reveal_strlit("=");
    reveal_strlit("leftbracket");
    reveal_strlit("(");
    reveal_strlit("rightbracket");
    reveal_strlit(")");
    reveal_strlit("semicolon");
    reveal_strlit(";");
    reveal_strlit("quote");
    reveal_strlit("´");
    reveal_strlit("backslash");
    reveal_strlit("\\");
    reveal_strlit("intlbackslash");
    reveal_strlit("comma");
    reveal_strlit(",");
    reveal_strlit("dot");
    reveal_strlit(".");
    reveal_strlit("slash");
    reveal_strlit("/");
}

/// The length and the characters of each alias of a key of the numeric pad.
proof fn keypad_spellings()
    ensures
        "numreturn"@.len() == 9 && "numreturn"@[0] == 'n' && "numreturn"@[1] == 'u'
            && "numreturn"@[2] == 'm' && "numreturn"@[3] == 'r' && "numreturn"@[4] == 'e'
            && "numreturn"@[5] == 't' && "numreturn"@[6] == 'u' && "numreturn"@[7] == 'r'
            && "numreturn"@[8] == 'n',
        "numminus"@.len() == 8 && "numminus"@[0] == 'n' && "numminus"@[1] == 'u'
            && "numminus"@[2] == 'm' && "numminus"@[3] == 'm' && "numminus"@[4] == 'i'
            && "numminus"@[5] == 'n' && "numminus"@[6] == 'u' && "numminus"@[7] == 's',
        "numplus"@.len() == 7 && "numplus"@[0] == 'n' && "numplus"@[1] == 'u'
            && "numplus"@[2] == 'm' && "numplus"@[3] == 'p' && "numplus"@[4] == 'l'
            && "numplus"@[5] == 'u' && "numplus"@[6] == 's',
        "nummultiply"@.len() == 11 && "nummultiply"@[0] == 'n' && "nummultiply"@[1] == 'u'
            && "nummultiply"@[2] == 'm' && "nummultiply"@[3] == 'm' && "nummultiply"@[4] == 'u'
            && "nummultiply"@[5] == 'l' && "nummultiply"@[6] == 't' && "nummultiply"@[7] == 'i'
            && "nummultiply"@[8] == 'p' && "nummultiply"@[9] == 'l' && "nummultiply"@[10] == 'y',
        "numdivide"@.len() == 9 && "numdivide"@[0] == 'n' && "numdivide"@[1] == 'u'
            && "numdivide"@[2] == 'm' && "numdivide"@[3] == 'd' && "numdivide"@[4] == 'i'
            && "numdivide"@[5] == 'v' && "numdivide"@[6] == 'i' && "numdivide"@[7] == 'd'
            && "numdivide"@[8] == 'e',
        "num0"@.len() == 4 && "num0"@[0] == 'n' && "num0"@[1] == 'u' && "num0"@[2] == 'm'
            && "num0"@[3] == '0',
        "num1"@.len() == 4 && "num1"@[0] == 'n' && "num1"@[1] == 'u' && "num1"@[2] == 'm'
            && "num1"@[3] == '1',
        "num2"@.len() == 4 && "num2"@[0] == 'n' && "num2"@[1] == 'u' && "num2"@[2] == 'm'
            && "num2"@[3] == '2',
        "num3"@.len() == 4 && "num3"@[0] == 'n' && "num3"@[1] == 'u' && "num3"@[2] == 'm'
            && "num3"@[3] == '3',
        "num4"@.len() == 4 && "num4"@[0] == 'n' && "num4"@[1] == 'u' && "num4"@[2] == 'm'
            && "num4"@[3] == '4',
        "num5"@.len() == 4 && "num5"@[0] == 'n' && "num5"@[1] == 'u' && "num5"@[2] == 'm'
            && "num5"@[3] == '5',
        "num6"@.len() == 4 && "num6"@[0] == 'n' && "num6"@[1] == 'u' && "num6"@[2] == 'm'
            && "num6"@[3] == '6',
        "num7"@.len() == 4 && "num7"@[0] == 'n' && "num7"@[1] == 'u' && "num7"@[2] == 'm'
            && "num7"@[3] == '7',
        "num8"@.len() == 4 && "num8"@[0] == 'n' && "num8"@[1] == 'u' && "num8"@[2] == 'm'
            && "num8"@[3] == '8',
        "num9"@.len() == 4 && "num9"@[0] == 'n' && "num9"@[1] == 'u' && "num9"@[2] == 'm'
            && "num9"@[3] == '9',
        "numdelete"@.len() == 9 && "numdelete"@[0] == 'n' && "numdelete"@[1] == 'u'
            && "numdelete"@[2] == 'm' && "numdelete"@[3] == 'd' && "numdelete"@[4] == 'e'
            && "numdelete"@[5] == 'l' && "numdelete"@[6] == 'e' && "numdelete"@[7] == 't'
            && "numdelete"@[8] == 'e',
{
    reveal_strlit("numreturn");
    reveal_strlit("numminus");
    reveal_strlit("numplus");
    reveal_strlit("nummultiply");
    reveal_strlit("numdivide");
    reveal_strlit("num0");
    reveal_strlit("num1");
    reveal_strlit("num2");
    reveal_strlit("num3");
    reveal_strlit("num4");
    reveal_strlit("num5");
    reveal_strlit("num6");
    reveal_strlit("num7");
    reveal_strlit("num8");
    reveal_strlit("num9");
    reveal_strlit("numdelete");
}

/// Looking up a name gives a key exactly when the name is one of the aliases
/// declared for that key: no alias is shadowed by another, and nothing but an
/// alias is found.
pub proof fn alias_lookup_is_exact(name: Seq<char>, key: Key)
    ensures
        named_key(name) == Some(key) <==> is_alias(name, key),
{
    modifier_spellings();
    editing_spellings();
    navigation_spellings();
    function_spellings();
    digit_spellings();
    letter_spellings();
    symbol_spellings();
    keypad_spellings();
}

/// A name of nine characters or more with an opening bracket as its eighth
/// is no alias.
pub proof fn bracketed_name_is_no_alias(name: Seq<char>)
    requires
        name.len() >= 9,
        name[7] == '(',
    ensures
        named_key(name) is None,
{
    modifier_spellings();
    editing_spellings();
    navigation_spellings();
    function_spellings();
    digit_spellings();
    letter_spellings();
    symbol_spellings();
    keypad_spellings();
}

} // verus!
