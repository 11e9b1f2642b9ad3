//! The translation of a browser's keyboard events into keys.
//!
//! A keyboard event names its key by a text (the letter or mark that the key
//! types, or the key's name) and tells in which part of the keyboard the key
//! lies. A pair that stands for no key of the vocabulary is dropped.

use vstd::prelude::*;
use vstd::string::StringSliceAdditionalSpecFns;

use crate::input::keyboard::Key;

verus! {

/// The key lies in the main block of the keyboard.
pub const KEY_LOCATION_STANDARD: u32 = 0;

/// The key lies on the left side, where a key has a twin on the right.
pub const KEY_LOCATION_LEFT: u32 = 1;

/// The key lies on the right side, where a key has a twin on the left.
pub const KEY_LOCATION_RIGHT: u32 = 2;

/// The key lies on the numeric pad.
pub const KEY_LOCATION_NUMPAD: u32 = 3;

/// Whether two texts are the same sequence of characters.
fn str_eq(a: &str, b: &str) -> (same: bool)
    ensures
        same == (a@ == b@),
{
    let x = a.as_bytes();
    let y = b.as_bytes();
    proof {
        vstd::utf8::encode_utf8_decode_utf8(a@);
        vstd::utf8::encode_utf8_decode_utf8(b@);
    }
    if x.len() != y.len() {
        return false;
    }
    let mut i: usize = 0;
    while i < x.len()
        invariant
            i <= x@.len(),
            x@.len() == y@.len(),
            x@ == a.spec_bytes(),
            y@ == b.spec_bytes(),
            forall|j: int| 0 <= j < i ==> x@[j] == y@[j],
        decreases x.len() - i,
    {
        if x[i] != y[i] {
            return false;
        }
        i += 1;
    }
    assert(x@ =~= y@);
    true
}

/// A letter key, whichever case the text has and wherever the key is.
pub open spec fn spec_letter_key(key: Seq<char>) -> Option<Key> {
    if key == "a"@ || key == "A"@ {
        Some(Key::A)
    } else if key == "b"@ || key == "B"@ {
        Some(Key::B)
    } else if key == "c"@ || key == "C"@ {
        Some(Key::C)
    } else if key == "d"@ || key == "D"@ {
        Some(Key::D)
    } else if key == "e"@ || key == "E"@ {
        Some(Key::E)
    } else if key == "f"@ || key == "F"@ {
        Some(Key::F)
    } else if key == "g"@ || key == "G"@ {
        Some(Key::G)
    } else if key == "h"@ || key == "H"@ {
        Some(Key::H)
    } else if key == "i"@ || key == "I"@ {
        Some(Key::I)
    } else if key == "j"@ || key == "J"@ {
        Some(Key::J)
    } else if key == "k"@ || key == "K"@ {
        Some(Key::K)
    } else if key == "l"@ || key == "L"@ {
        Some(Key::L)
    } else if key == "m"@ || key == "M"@ {
        Some(Key::M)
    } else if key == "n"@ || key == "N"@ {
        Some(Key::N)
    } else if key == "o"@ || key == "O"@ {
        Some(Key::O)
    } else if key == "p"@ || key == "P"@ {
        Some(Key::P)
    } else if key == "q"@ || key == "Q"@ {
        Some(Key::Q)
    } else if key == "r"@ || key == "R"@ {
        Some(Key::R)
    } else if key == "s"@ || key == "S"@ {
        Some(Key::S)
    } else if key == "t"@ || key == "T"@ {
        Some(Key::T)
    } else if key == "u"@ || key == "U"@ {
        Some(Key::U)
    } else if key == "v"@ || key == "V"@ {
        Some(Key::V)
    } else if key == "w"@ || key == "W"@ {
        Some(Key::W)
    } else if key == "x"@ || key == "X"@ {
        Some(Key::X)
    } else if key == "y"@ || key == "Y"@ {
        Some(Key::Y)
    } else if key == "z"@ || key == "Z"@ {
        Some(Key::Z)
    } else {
        None
    }
}

fn letter_key(key: &str) -> (found: Option<Key>)
    ensures
        found == spec_letter_key(key@),
{
    if str_eq(key, "a") || str_eq(key, "A") {
        Some(Key::A)
    } else if str_eq(key, "b") || str_eq(key, "B") {
        Some(Key::B)
    } else if str_eq(key, "c") || str_eq(key, "C") {
        Some(Key::C)
    } else if str_eq(key, "d") || str_eq(key, "D") {
        Some(Key::D)
    } else if str_eq(key, "e") || str_eq(key, "E") {
        Some(Key::E)
    } else if str_eq(key, "f") || str_eq(key, "F") {
        Some(Key::F)
    } else if str_eq(key, "g") || str_eq(key, "G") {
        Some(Key::G)
    } else if str_eq(key, "h") || str_eq(key, "H") {
        Some(Key::H)
    } else if str_eq(key, "i") || str_eq(key, "I") {
        Some(Key::I)
    } else if str_eq(key, "j") || str_eq(key, "J") {
        Some(Key::J)
    } else if str_eq(key, "k") || str_eq(key, "K") {
        Some(Key::K)
    } else if str_eq(key, "l") || str_eq(key, "L") {
        Some(Key::L)
    } else if str_eq(key, "m") || str_eq(key, "M") {
        Some(Key::M)
    } else if str_eq(key, "n") || str_eq(key, "N") {
        Some(Key::N)
    } else if str_eq(key, "o") || str_eq(key, "O") {
        Some(Key::O)
    } else if str_eq(key, "p") || str_eq(key, "P") {
        Some(Key::P)
    } else if str_eq(key, "q") || str_eq(key, "Q") {
        Some(Key::Q)
    } else if str_eq(key, "r") || str_eq(key, "R") {
        Some(Key::R)
    } else if str_eq(key, "s") || str_eq(key, "S") {
        Some(Key::S)
    } else if str_eq(key, "t") || str_eq(key, "T") {
        Some(Key::T)
    } else if str_eq(key, "u") || str_eq(key, "U") {
        Some(Key::U)
    } else if str_eq(key, "v") || str_eq(key, "V") {
        Some(Key::V)
    } else if str_eq(key, "w") || str_eq(key, "W") {
        Some(Key::W)
    } else if str_eq(key, "x") || str_eq(key, "X") {
        Some(Key::X)
    } else if str_eq(key, "y") || str_eq(key, "Y") {
        Some(Key::Y)
    } else if str_eq(key, "z") || str_eq(key, "Z") {
        Some(Key::Z)
    } else {
        None
    }
}

/// A digit key of the main block.
pub open spec fn spec_digit_key(key: Seq<char>, location: u32) -> Option<Key> {
    if key == "0"@ && location == KEY_LOCATION_STANDARD {
        Some(Key::Num0)
    } else if key == "1"@ && location == KEY_LOCATION_STANDARD {
        Some(Key::Num1)
    } else if key == "2"@ && location == KEY_LOCATION_STANDARD {
        Some(Key::Num2)
    } else if key == "3"@ && location == KEY_LOCATION_STANDARD {
        Some(Key::Num3)
    } else if key == "4"@ && location == KEY_LOCATION_STANDARD {
        Some(Key::Num4)
    } else if key == "5"@ && location == KEY_LOCATION_STANDARD {
        Some(Key::Num5)
    } else if key == "6"@ && location == KEY_LOCATION_STANDARD {
        Some(Key::Num6)
    } else if key == "7"@ && location == KEY_LOCATION_STANDARD {
        Some(Key::Num7)
    } else if key == "8"@ && location == KEY_LOCATION_STANDARD {
        Some(Key::Num8)
    } else if key == "9"@ && location == KEY_LOCATION_STANDARD {
        Some(Key::Num9)
    } else {
        None
    }
}

fn digit_key(key: &str, location: u32) -> (found: Option<Key>)
    ensures
        found == spec_digit_key(key@, location),
{
    if str_eq(key, "0") && location == KEY_LOCATION_STANDARD {
        Some(Key::Num0)
    } else if str_eq(key, "1") && location == KEY_LOCATION_STANDARD {
        Some(Key::Num1)
    } else if str_eq(key, "2") && location == KEY_LOCATION_STANDARD {
        Some(Key::Num2)
    } else if str_eq(key, "3") && location == KEY_LOCATION_STANDARD {
        Some(Key::Num3)
    } else if str_eq(key, "4") && location == KEY_LOCATION_STANDARD {
        Some(Key::Num4)
    } else if str_eq(key, "5") && location == KEY_LOCATION_STANDARD {
        Some(Key::Num5)
    } else if str_eq(key, "6") && location == KEY_LOCATION_STANDARD {
        Some(Key::Num6)
    } else if str_eq(key, "7") && location == KEY_LOCATION_STANDARD {
        Some(Key::Num7)
    } else if str_eq(key, "8") && location == KEY_LOCATION_STANDARD {
        Some(Key::Num8)
    } else if str_eq(key, "9") && location == KEY_LOCATION_STANDARD {
        Some(Key::Num9)
    } else {
        None
    }
}

/// A function key, wherever the key is.
pub open spec fn spec_function_key(key: Seq<char>) -> Option<Key> {
    if key == "F1"@ {
        Some(Key::F1)
    } else if key == "F2"@ {
        Some(Key::F2)
    } else if key == "F3"@ {
        Some(Key::F3)
    } else if key == "F4"@ {
        Some(Key::F4)
    } else if key == "F5"@ {
        Some(Key::F5)
    } else if key == "F6"@ {
        Some(Key::F6)
    } else if key == "F7"@ {
        Some(Key::F7)
    } else if key == "F8"@ {
        Some(Key::F8)
    } else if key == "F9"@ {
        Some(Key::F9)
    } else if key == "F10"@ {
        Some(Key::F10)
    } else if key == "F11"@ {
        Some(Key::F11)
    } else if key == "F12"@ {
        Some(Key::F12)
    } else if key == "F13"@ {
        Some(Key::F13)
    } else if key == "F14"@ {
        Some(Key::F14)
    } else if key == "F15"@ {
        Some(Key::F15)
    } else if key == "F16"@ {
        Some(Key::F16)
    } else if key == "F17"@ {
        Some(Key::F17)
    } else if key == "F18"@ {
        Some(Key::F18)
    } else if key == "F19"@ {
        Some(Key::F19)
    } else if key == "F20"@ {
        Some(Key::F20)
    } else if key == "F21"@ {
        Some(Key::F21)
    } else if key == "F22"@ {
        Some(Key::F22)
    } else if key == "F23"@ {
        Some(Key::F23)
    } else if key == "F24"@ {
        Some(Key::F24)
    } else {
        None
    }
}

fn function_key(key: &str) -> (found: Option<Key>)
    ensures
        found == spec_function_key(key@),
{
    if str_eq(key, "F1") {
        Some(Key::F1)
    } else if str_eq(key, "F2") {
        Some(Key::F2)
    } else if str_eq(key, "F3") {
        Some(Key::F3)
    } else if str_eq(key, "F4") {
        Some(Key::F4)
    } else if str_eq(key, "F5") {
        Some(Key::F5)
    } else if str_eq(key, "F6") {
        Some(Key::F6)
    } else if str_eq(key, "F7") {
        Some(Key::F7)
    } else if str_eq(key, "F8") {
        Some(Key::F8)
    } else if str_eq(key, "F9") {
        Some(Key::F9)
    } else if str_eq(key, "F10") {
        Some(Key::F10)
    } else if str_eq(key, "F11") {
        Some(Key::F11)
    } else if str_eq(key, "F12") {
        Some(Key::F12)
    } else if str_eq(key, "F13") {
        Some(Key::F13)
    } else if str_eq(key, "F14") {
        Some(Key::F14)
    } else if str_eq(key, "F15") {
        Some(Key::F15)
    } else if str_eq(key, "F16") {
        Some(Key::F16)
    } else if str_eq(key, "F17") {
        Some(Key::F17)
    } else if str_eq(key, "F18") {
        Some(Key::F18)
    } else if str_eq(key, "F19") {
        Some(Key::F19)
    } else if str_eq(key, "F20") {
        Some(Key::F20)
    } else if str_eq(key, "F21") {
        Some(Key::F21)
    } else if str_eq(key, "F22") {
        Some(Key::F22)
    } else if str_eq(key, "F23") {
        Some(Key::F23)
    } else if str_eq(key, "F24") {
        Some(Key::F24)
    } else {
        None
    }
}

/// A key of the numeric pad.
pub open spec fn spec_numpad_key(key: Seq<char>, location: u32) -> Option<Key> {
    if key == "NumLock"@ {
        Some(Key::NumLock)
    } else if key == "0"@ && location == KEY_LOCATION_NUMPAD {
        Some(Key::NumPad1)
    } else if key == "1"@ && location == KEY_LOCATION_NUMPAD {
        Some(Key::NumPad2)
    } else if key == "2"@ && location == KEY_LOCATION_NUMPAD {
        Some(Key::NumPad3)
    } else if key == "3"@ && location == KEY_LOCATION_NUMPAD {
        Some(Key::NumPad4)
    } else if key == "4"@ && location == KEY_LOCATION_NUMPAD {
        Some(Key::NumPad5)
    } else if key == "5"@ && location == KEY_LOCATION_NUMPAD {
        Some(Key::NumPad6)
    } else if key == "6"@ && location == KEY_LOCATION_NUMPAD {
        Some(Key::NumPad7)
    } else if key == "7"@ && location == KEY_LOCATION_NUMPAD {
        Some(Key::NumPad8)
    } else if key == "8"@ && location == KEY_LOCATION_NUMPAD {
        Some(Key::NumPad9)
    } else if key == "9"@ && location == KEY_LOCATION_NUMPAD {
        Some(Key::NumPad0)
    } else if key == "+"@ && location == KEY_LOCATION_NUMPAD {
        Some(Key::NumPadPlus)
    } else if key == "-"@ && location == KEY_LOCATION_NUMPAD {
        Some(Key::NumPadMinus)
    } else if key == "*"@ && location == KEY_LOCATION_NUMPAD {
        Some(Key::NumPadMultiply)
    } else if key == "/"@ && location == KEY_LOCATION_NUMPAD {
        Some(Key::NumPadDivide)
    } else if key == "Enter"@ && location == KEY_LOCATION_NUMPAD {
        Some(Key::NumPadEnter)
    } else {
        None
    }
}

fn numpad_key(key: &str, location: u32) -> (found: Option<Key>)
    ensures
        found == spec_numpad_key(key@, location),
{
    if str_eq(key, "NumLock") {
        Some(Key::NumLock)
    } else if str_eq(key, "0") && location == KEY_LOCATION_NUMPAD {
        Some(Key::NumPad1)
    } else if str_eq(key, "1") && location == KEY_LOCATION_NUMPAD {
        Some(Key::NumPad2)
    } else if str_eq(key, "2") && location == KEY_LOCATION_NUMPAD {
        Some(Key::NumPad3)
    } else if str_eq(key, "3") && location == KEY_LOCATION_NUMPAD {
        Some(Key::NumPad4)
    } else if str_eq(key, "4") && location == KEY_LOCATION_NUMPAD {
        Some(Key::NumPad5)
    } else if str_eq(key, "5") && location == KEY_LOCATION_NUMPAD {
        Some(Key::NumPad6)
    } else if str_eq(key, "6") && location == KEY_LOCATION_NUMPAD {
        Some(Key::NumPad7)
    } else if str_eq(key, "7") && location == KEY_LOCATION_NUMPAD {
        Some(Key::NumPad8)
    } else if str_eq(key, "8") && location == KEY_LOCATION_NUMPAD {
        Some(Key::NumPad9)
    } else if str_eq(key, "9") && location == KEY_LOCATION_NUMPAD {
        Some(Key::NumPad0)
    } else if str_eq(key, "+") && location == KEY_LOCATION_NUMPAD {
        Some(Key::NumPadPlus)
    } else if str_eq(key, "-") && location == KEY_LOCATION_NUMPAD {
        Some(Key::NumPadMinus)
    } else if str_eq(key, "*") && location == KEY_LOCATION_NUMPAD {
        Some(Key::NumPadMultiply)
    } else if str_eq(key, "/") && location == KEY_LOCATION_NUMPAD {
        Some(Key::NumPadDivide)
    } else if str_eq(key, "Enter") && location == KEY_LOCATION_NUMPAD {
        Some(Key::NumPadEnter)
    } else {
        None
    }
}

/// A modifier key: the side of the keyboard tells the left key from the right one.
pub open spec fn spec_modifier_key(key: Seq<char>, location: u32) -> Option<Key> {
    if key == "Control"@ && location == KEY_LOCATION_LEFT {
        Some(Key::LeftCtrl)
    } else if key == "Shift"@ && location == KEY_LOCATION_LEFT {
        Some(Key::LeftShift)
    } else if key == "Alt"@ && location == KEY_LOCATION_LEFT {
        Some(Key::LeftAlt)
    } else if key == "Control"@ && location == KEY_LOCATION_RIGHT {
        Some(Key::RightCtrl)
    } else if key == "Shift"@ && location == KEY_LOCATION_RIGHT {
        Some(Key::RightShift)
    } else if key == "Alt"@ && location == KEY_LOCATION_RIGHT {
        Some(Key::RightAlt)
    } else {
        None
    }
}

fn modifier_key(key: &str, location: u32) -> (found: Option<Key>)
    ensures
        found == spec_modifier_key(key@, location),
{
    if str_eq(key, "Control") && location == KEY_LOCATION_LEFT {
        Some(Key::LeftCtrl)
    } else if str_eq(key, "Shift") && location == KEY_LOCATION_LEFT {
        Some(Key::LeftShift)
    } else if str_eq(key, "Alt") && location == KEY_LOCATION_LEFT {
        Some(Key::LeftAlt)
    } else if str_eq(key, "Control") && location == KEY_LOCATION_RIGHT {
        Some(Key::RightCtrl)
    } else if str_eq(key, "Shift") && location == KEY_LOCATION_RIGHT {
        Some(Key::RightShift)
    } else if str_eq(key, "Alt") && location == KEY_LOCATION_RIGHT {
        Some(Key::RightAlt)
    } else {
        None
    }
}

/// An arrow key, wherever the key is.
pub open spec fn spec_arrow_key(key: Seq<char>) -> Option<Key> {
    if key == "ArrowUp"@ {
        Some(Key::Up)
    } else if key == "ArrowDown"@ {
        Some(Key::Down)
    } else if key == "ArrowLeft"@ {
        Some(Key::Left)
    } else if key == "ArrowRight"@ {
        Some(Key::Right)
    } else {
        None
    }
}

fn arrow_key(key: &str) -> (found: Option<Key>)
    ensures
        found == spec_arrow_key(key@),
{
    if str_eq(key, "ArrowUp") {
        Some(Key::Up)
    } else if str_eq(key, "ArrowDown") {
        Some(Key::Down)
    } else if str_eq(key, "ArrowLeft") {
        Some(Key::Left)
    } else if str_eq(key, "ArrowRight") {
        Some(Key::Right)
    } else {
        None
    }
}

/// An editing or navigation key, known by its name.
pub open spec fn spec_named_key(key: Seq<char>, location: u32) -> Option<Key> {
    if key == "Backspace"@ {
        Some(Key::Backspace)
    } else if key == "CapsLock"@ {
        Some(Key::CapsLock)
    } else if key == "Delete"@ {
        Some(Key::Delete)
    } else if key == "End"@ {
        Some(Key::End)
    } else if key == "Enter"@ && location == KEY_LOCATION_STANDARD {
        Some(Key::Enter)
    } else if key == "Escape"@ {
        Some(Key::Escape)
    } else if key == "Home"@ {
        Some(Key::Home)
    } else if key == "Insert"@ {
        Some(Key::Insert)
    } else if key == "PageDown"@ {
        Some(Key::PageDown)
    } else if key == "PageUp"@ {
        Some(Key::PageUp)
    } else if key == "Pause"@ {
        Some(Key::Pause)
    } else if key == "PrintScreen"@ {
        Some(Key::PrintScreen)
    } else if key == "ScrollLock"@ {
        Some(Key::ScrollLock)
    } else if key == "Tab"@ {
        Some(Key::Tab)
    } else {
        None
    }
}

fn named_key(key: &str, location: u32) -> (found: Option<Key>)
    ensures
        found == spec_named_key(key@, location),
{
    if str_eq(key, "Backspace") {
        Some(Key::Backspace)
    } else if str_eq(key, "CapsLock") {
        Some(Key::CapsLock)
    } else if str_eq(key, "Delete") {
        Some(Key::Delete)
    } else if str_eq(key, "End") {
        Some(Key::End)
    } else if str_eq(key, "Enter") && location == KEY_LOCATION_STANDARD {
        Some(Key::Enter)
    } else if str_eq(key, "Escape") {
        Some(Key::Escape)
    } else if str_eq(key, "Home") {
        Some(Key::Home)
    } else if str_eq(key, "Insert") {
        Some(Key::Insert)
    } else if str_eq(key, "PageDown") {
        Some(Key::PageDown)
    } else if str_eq(key, "PageUp") {
        Some(Key::PageUp)
    } else if str_eq(key, "Pause") {
        Some(Key::Pause)
    } else if str_eq(key, "PrintScreen") {
        Some(Key::PrintScreen)
    } else if str_eq(key, "ScrollLock") {
        Some(Key::ScrollLock)
    } else if str_eq(key, "Tab") {
        Some(Key::Tab)
    } else {
        None
    }
}

/// A key known by the punctuation mark that it types.
pub open spec fn spec_symbol_key(key: Seq<char>, location: u32) -> Option<Key> {
    if key == "&"@ {
        Some(Key::Ampersand)
    } else if key == "*"@ && location == KEY_LOCATION_STANDARD {
        Some(Key::Asterisk)
    } else if key == "@"@ {
        Some(Key::At)
    } else if key == "`"@ {
        Some(Key::Backquote)
    } else if key == "\\"@ {
        Some(Key::Backslash)
    } else if key == "^"@ {
        Some(Key::Caret)
    } else if key == ":"@ {
        Some(Key::Colon)
    } else if key == ","@ {
        Some(Key::Comma)
    } else if key == "$"@ {
        Some(Key::Dollar)
    } else if key == "\""@ {
        Some(Key::DoubleQuote)
    } else if key == "="@ {
        Some(Key::Equals)
    } else if key == "!"@ {
        Some(Key::Exclaim)
    } else if key == ">"@ {
        Some(Key::GreaterThan)
    } else if key == "#"@ {
        Some(Key::Hash)
    } else if key == "{"@ {
        Some(Key::LeftBracket)
    } else if key == "("@ {
        Some(Key::LeftParen)
    } else if key == "<"@ {
        Some(Key::LessThan)
    } else if key == "-"@ && location == KEY_LOCATION_STANDARD {
        Some(Key::Minus)
    } else if key == "%"@ {
        Some(Key::Percent)
    } else if key == "."@ {
        Some(Key::Period)
    } else if key == "+"@ && location == KEY_LOCATION_STANDARD {
        Some(Key::Plus)
    } else if key == "?"@ {
        Some(Key::Question)
    } else if key == "'"@ {
        Some(Key::Quote)
    } else if key == "}"@ {
        Some(Key::RightBracket)
    } else if key == ")"@ {
        Some(Key::RightParen)
    } else if key == ";"@ {
        Some(Key::Semicolon)
    } else if key == "/"@ && location == KEY_LOCATION_STANDARD {
        Some(Key::Slash)
    } else if key == " "@ {
        Some(Key::Space)
    } else if key == "_"@ {
        Some(Key::Underscore)
    } else {
        None
    }
}

fn symbol_key(key: &str, location: u32) -> (found: Option<Key>)
    ensures
        found == spec_symbol_key(key@, location),
{
    if str_eq(key, "&") {
        Some(Key::Ampersand)
    } else if str_eq(key, "*") && location == KEY_LOCATION_STANDARD {
        Some(Key::Asterisk)
    } else if str_eq(key, "@") {
        Some(Key::At)
    } else if str_eq(key, "`") {
        Some(Key::Backquote)
    } else if str_eq(key, "\\") {
        Some(Key::Backslash)
    } else if str_eq(key, "^") {
        Some(Key::Caret)
    } else if str_eq(key, ":") {
        Some(Key::Colon)
    } else if str_eq(key, ",") {
        Some(Key::Comma)
    } else if str_eq(key, "$") {
        Some(Key::Dollar)
    } else if str_eq(key, "\"") {
        Some(Key::DoubleQuote)
    } else if str_eq(key, "=") {
        Some(Key::Equals)
    } else if str_eq(key, "!") {
        Some(Key::Exclaim)
    } else if str_eq(key, ">") {
        Some(Key::GreaterThan)
    } else if str_eq(key, "#") {
        Some(Key::Hash)
    } else if str_eq(key, "{") {
        Some(Key::LeftBracket)
    } else if str_eq(key, "(") {
        Some(Key::LeftParen)
    } else if str_eq(key, "<") {
        Some(Key::LessThan)
    } else if str_eq(key, "-") && location == KEY_LOCATION_STANDARD {
        Some(Key::Minus)
    } else if str_eq(key, "%") {
        Some(Key::Percent)
    } else if str_eq(key, ".") {
        Some(Key::Period)
    } else if str_eq(key, "+") && location == KEY_LOCATION_STANDARD {
        Some(Key::Plus)
    } else if str_eq(key, "?") {
        Some(Key::Question)
    } else if str_eq(key, "'") {
        Some(Key::Quote)
    } else if str_eq(key, "}") {
        Some(Key::RightBracket)
    } else if str_eq(key, ")") {
        Some(Key::RightParen)
    } else if str_eq(key, ";") {
        Some(Key::Semicolon)
    } else if str_eq(key, "/") && location == KEY_LOCATION_STANDARD {
        Some(Key::Slash)
    } else if str_eq(key, " ") {
        Some(Key::Space)
    } else if str_eq(key, "_") {
        Some(Key::Underscore)
    } else {
        None
    }
}
/// The key that a keyboard event stands for: `key` is the event's text and
/// `location` the part of the keyboard in which the key lies. `None` for an
/// event that stands for no key of the vocabulary.
pub open spec fn spec_into_key(key: Seq<char>, location: u32) -> Option<Key> {
    if spec_letter_key(key) is Some {
        spec_letter_key(key)
    } else if spec_digit_key(key, location) is Some {
        spec_digit_key(key, location)
    } else if spec_function_key(key) is Some {
        spec_function_key(key)
    } else if spec_numpad_key(key, location) is Some {
        spec_numpad_key(key, location)
    } else if spec_modifier_key(key, location) is Some {
        spec_modifier_key(key, location)
    } else if spec_arrow_key(key) is Some {
        spec_arrow_key(key)
    } else if spec_named_key(key, location) is Some {
        spec_named_key(key, location)
    } else {
        spec_symbol_key(key, location)
    }
}

/// Translates a keyboard event, given by its text and by the part of the
/// keyboard in which the key lies, into the key that it stands for. Returns
/// `None` for an event that stands for no key of the vocabulary.
pub fn into_key(key: &str, location: u32) -> (found: Option<Key>)
    ensures
        found == spec_into_key(key@, location),
{
    if let Some(found) = letter_key(key) {
        Some(found)
    } else if let Some(found) = digit_key(key, location) {
        Some(found)
    } else if let Some(found) = function_key(key) {
        Some(found)
    } else if let Some(found) = numpad_key(key, location) {
        Some(found)
    } else if let Some(found) = modifier_key(key, location) {
        Some(found)
    } else if let Some(found) = arrow_key(key) {
        Some(found)
    } else if let Some(found) = named_key(key, location) {
        Some(found)
    } else {
        symbol_key(key, location)
    }
}

} // verus!
