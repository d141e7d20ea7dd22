//! macOS virtual key codes and the names by which shortcuts refer to keys and
//! mouse buttons.
use vstd::prelude::*;

use crate::text::{ascii_lower, is_single_ascii, lemma_one_byte_iff_single_ascii, lower_ascii_char, str_eq};

verus! {

pub const VK_A: u16 = 0x00;
pub const VK_S: u16 = 0x01;
pub const VK_D: u16 = 0x02;
pub const VK_F: u16 = 0x03;
pub const VK_H: u16 = 0x04;
pub const VK_G: u16 = 0x05;
pub const VK_Z: u16 = 0x06;
pub const VK_X: u16 = 0x07;
pub const VK_C: u16 = 0x08;
pub const VK_V: u16 = 0x09;
pub const VK_B: u16 = 0x0B;
pub const VK_Q: u16 = 0x0C;
pub const VK_W: u16 = 0x0D;
pub const VK_E: u16 = 0x0E;
pub const VK_R: u16 = 0x0F;
pub const VK_Y: u16 = 0x10;
pub const VK_T: u16 = 0x11;
pub const VK_1: u16 = 0x12;
pub const VK_2: u16 = 0x13;
pub const VK_3: u16 = 0x14;
pub const VK_4: u16 = 0x15;
pub const VK_6: u16 = 0x16;
pub const VK_5: u16 = 0x17;
pub const VK_9: u16 = 0x19;
pub const VK_7: u16 = 0x1A;
pub const VK_8: u16 = 0x1C;
pub const VK_0: u16 = 0x1D;
pub const VK_O: u16 = 0x1F;
pub const VK_U: u16 = 0x20;
pub const VK_I: u16 = 0x22;
pub const VK_P: u16 = 0x23;
pub const VK_L: u16 = 0x25;
pub const VK_J: u16 = 0x26;
pub const VK_K: u16 = 0x28;
pub const VK_N: u16 = 0x2D;
pub const VK_M: u16 = 0x2E;
pub const VK_RETURN: u16 = 0x24;
pub const VK_TAB: u16 = 0x30;
pub const VK_SPACE: u16 = 0x31;
pub const VK_DELETE: u16 = 0x33;
pub const VK_ESCAPE: u16 = 0x35;
pub const VK_LCOMMAND: u16 = 0x37;
pub const VK_LSHIFT: u16 = 0x38;
pub const VK_CAPSLOCK: u16 = 0x39;
pub const VK_LOPTION: u16 = 0x3A;
pub const VK_LCONTROL: u16 = 0x3B;
pub const VK_RCOMMAND: u16 = 0x36;
pub const VK_RSHIFT: u16 = 0x3C;
pub const VK_ROPTION: u16 = 0x3D;
pub const VK_RCONTROL: u16 = 0x3E;
pub const VK_FORWARD_DELETE: u16 = 0x75;
pub const VK_F1: u16 = 0x7A;
pub const VK_F2: u16 = 0x78;
pub const VK_F3: u16 = 0x63;
pub const VK_F4: u16 = 0x76;
pub const VK_F5: u16 = 0x60;
pub const VK_F6: u16 = 0x61;
pub const VK_F7: u16 = 0x62;
pub const VK_F8: u16 = 0x64;
pub const VK_F9: u16 = 0x65;
pub const VK_F10: u16 = 0x6D;
pub const VK_F11: u16 = 0x67;
pub const VK_F12: u16 = 0x6F;

/// Modifier bit of the Shift keys in an event's flags.
pub const FLAG_SHIFT: u64 = 0x00020000;
/// Modifier bit of the Control keys in an event's flags.
pub const FLAG_CONTROL: u64 = 0x00040000;
/// Modifier bit of the Option keys in an event's flags.
pub const FLAG_OPTION: u64 = 0x00080000;
/// Modifier bit of the Command keys in an event's flags.
pub const FLAG_COMMAND: u64 = 0x00100000;

/// The key code of a key that has a name of several characters.
pub open spec fn spec_named_key_code(name: Seq<char>) -> Option<u16> {
    if name == "Alt_L"@ {
        Some(VK_LOPTION)
    } else if name == "Alt_R"@ {
        Some(VK_ROPTION)
    } else if name == "Shift_L"@ {
        Some(VK_LSHIFT)
    } else if name == "Shift_R"@ {
        Some(VK_RSHIFT)
    } else if name == "Control_L"@ {
        Some(VK_LCONTROL)
    } else if name == "Control_R"@ {
        Some(VK_RCONTROL)
    } else if name == "Super_L"@ {
        Some(VK_LCOMMAND)
    } else if name == "Super_R"@ {
        Some(VK_RCOMMAND)
    } else if name == "space"@ {
        Some(VK_SPACE)
    } else if name == "Return"@ {
        Some(VK_RETURN)
    } else if name == "Escape"@ {
        Some(VK_ESCAPE)
    } else if name == "BackSpace"@ {
        Some(VK_DELETE)
    } else if name == "Tab"@ {
        Some(VK_TAB)
    } else if name == "Caps_Lock"@ {
        Some(VK_CAPSLOCK)
    } else if name == "Delete"@ {
        Some(VK_FORWARD_DELETE)
    } else if name == "F1"@ {
        Some(VK_F1)
    } else if name == "F2"@ {
        Some(VK_F2)
    } else if name == "F3"@ {
        Some(VK_F3)
    } else if name == "F4"@ {
        Some(VK_F4)
    } else if name == "F5"@ {
        Some(VK_F5)
    } else if name == "F6"@ {
        Some(VK_F6)
    } else if name == "F7"@ {
        Some(VK_F7)
    } else if name == "F8"@ {
        Some(VK_F8)
    } else if name == "F9"@ {
        Some(VK_F9)
    } else if name == "F10"@ {
        Some(VK_F10)
    } else if name == "F11"@ {
        Some(VK_F11)
    } else if name == "F12"@ {
        Some(VK_F12)
    } else {
        None
    }
}

/// The key code of a letter or digit, taken in lower case.
pub open spec fn spec_char_key_code(c: char) -> Option<u16> {
    if c == 'a' {
        Some(VK_A)
    } else if c == 'b' {
        Some(VK_B)
    } else if c == 'c' {
        Some(VK_C)
    } else if c == 'd' {
        Some(VK_D)
    } else if c == 'e' {
        Some(VK_E)
    } else if c == 'f' {
        Some(VK_F)
    } else if c == 'g' {
        Some(VK_G)
    } else if c == 'h' {
        Some(VK_H)
    } else if c == 'i' {
        Some(VK_I)
    } else if c == 'j' {
        Some(VK_J)
    } else if c == 'k' {
        Some(VK_K)
    } else if c == 'l' {
        Some(VK_L)
    } else if c == 'm' {
        Some(VK_M)
    } else if c == 'n' {
        Some(VK_N)
    } else if c == 'o' {
        Some(VK_O)
    } else if c == 'p' {
        Some(VK_P)
    } else if c == 'q' {
        Some(VK_Q)
    } else if c == 'r' {
        Some(VK_R)
    } else if c == 's' {
        Some(VK_S)
    } else if c == 't' {
        Some(VK_T)
    } else if c == 'u' {
        Some(VK_U)
    } else if c == 'v' {
        Some(VK_V)
    } else if c == 'w' {
        Some(VK_W)
    } else if c == 'x' {
        Some(VK_X)
    } else if c == 'y' {
        Some(VK_Y)
    } else if c == 'z' {
        Some(VK_Z)
    } else if c == '0' {
        Some(VK_0)
    } else if c == '1' {
        Some(VK_1)
    } else if c == '2' {
        Some(VK_2)
    } else if c == '3' {
        Some(VK_3)
    } else if c == '4' {
        Some(VK_4)
    } else if c == '5' {
        Some(VK_5)
    } else if c == '6' {
        Some(VK_6)
    } else if c == '7' {
        Some(VK_7)
    } else if c == '8' {
        Some(VK_8)
    } else if c == '9' {
        Some(VK_9)
    } else {
        None
    }
}

/// The key code that a key name stands for: one of the named keys, or a
/// single one-byte letter or digit in either case.
pub open spec fn spec_key_code(name: Seq<char>) -> Option<u16> {
    match spec_named_key_code(name) {
        Some(k) => Some(k),
        None => if is_single_ascii(name) {
            spec_char_key_code(ascii_lower(name[0]))
        } else {
            None
        },
    }
}

/// The canonical name of a key code, where it has one.
pub open spec fn spec_key_name(code: u16) -> Option<Seq<char>> {
    if code == VK_LOPTION {
        Some("Alt_L"@)
    } else if code == VK_ROPTION {
        Some("Alt_R"@)
    } else if code == VK_LSHIFT {
        Some("Shift_L"@)
    } else if code == VK_RSHIFT {
        Some("Shift_R"@)
    } else if code == VK_LCONTROL {
        Some("Control_L"@)
    } else if code == VK_RCONTROL {
        Some("Control_R"@)
    } else if code == VK_LCOMMAND {
        Some("Super_L"@)
    } else if code == VK_RCOMMAND {
        Some("Super_R"@)
    } else if code == VK_SPACE {
        Some("space"@)
    } else if code == VK_RETURN {
        Some("Return"@)
    } else if code == VK_ESCAPE {
        Some("Escape"@)
    } else if code == VK_DELETE {
        Some("BackSpace"@)
    } else if code == VK_TAB {
        Some("Tab"@)
    } else if code == VK_CAPSLOCK {
        Some("Caps_Lock"@)
    } else if code == VK_FORWARD_DELETE {
        Some("Delete"@)
    } else if code == VK_F1 {
        Some("F1"@)
    } else if code == VK_F2 {
        Some("F2"@)
    } else if code == VK_F3 {
        Some("F3"@)
    } else if code == VK_F4 {
        Some("F4"@)
    } else if code == VK_F5 {
        Some("F5"@)
    } else if code == VK_F6 {
        Some("F6"@)
    } else if code == VK_F7 {
        Some("F7"@)
    } else if code == VK_F8 {
        Some("F8"@)
    } else if code == VK_F9 {
        Some("F9"@)
    } else if code == VK_F10 {
        Some("F10"@)
    } else if code == VK_F11 {
        Some("F11"@)
    } else if code == VK_F12 {
        Some("F12"@)
    } else if code == VK_A {
        Some("a"@)
    } else if code == VK_B {
        Some("b"@)
    } else if code == VK_C {
        Some("c"@)
    } else if code == VK_D {
        Some("d"@)
    } else if code == VK_E {
        Some("e"@)
    } else if code == VK_F {
        Some("f"@)
    } else if code == VK_G {
        Some("g"@)
    } else if code == VK_H {
        Some("h"@)
    } else if code == VK_I {
        Some("i"@)
    } else if code == VK_J {
        Some("j"@)
    } else if code == VK_K {
        Some("k"@)
    } else if code == VK_L {
        Some("l"@)
    } else if code == VK_M {
        Some("m"@)
    } else if code == VK_N {
        Some("n"@)
    } else if code == VK_O {
        Some("o"@)
    } else if code == VK_P {
        Some("p"@)
    } else if code == VK_Q {
        Some("q"@)
    } else if code == VK_R {
        Some("r"@)
    } else if code == VK_S {
        Some("s"@)
    } else if code == VK_T {
        Some("t"@)
    } else if code == VK_U {
        Some("u"@)
    } else if code == VK_V {
        Some("v"@)
    } else if code == VK_W {
        Some("w"@)
    } else if code == VK_X {
        Some("x"@)
    } else if code == VK_Y {
        Some("y"@)
    } else if code == VK_Z {
        Some("z"@)
    } else if code == VK_0 {
        Some("0"@)
    } else if code == VK_1 {
        Some("1"@)
    } else if code == VK_2 {
        Some("2"@)
    } else if code == VK_3 {
        Some("3"@)
    } else if code == VK_4 {
        Some("4"@)
    } else if code == VK_5 {
        Some("5"@)
    } else if code == VK_6 {
        Some("6"@)
    } else if code == VK_7 {
        Some("7"@)
    } else if code == VK_8 {
        Some("8"@)
    } else if code == VK_9 {
        Some("9"@)
    } else {
        None
    }
}

/// The eight modifier keys: left and right Option, Shift, Control, Command.
pub open spec fn spec_is_modifier(code: u16) -> bool {
    code == VK_LOPTION || code == VK_ROPTION || code == VK_LSHIFT || code == VK_RSHIFT
        || code == VK_LCONTROL || code == VK_RCONTROL || code == VK_LCOMMAND || code == VK_RCOMMAND
}

/// The flag bit that a modifier key sets; 0 for any other key.
pub open spec fn spec_modifier_flag(code: u16) -> u64 {
    if code == VK_LSHIFT || code == VK_RSHIFT {
        FLAG_SHIFT
    } else if code == VK_LCONTROL || code == VK_RCONTROL {
        FLAG_CONTROL
    } else if code == VK_LOPTION || code == VK_ROPTION {
        FLAG_OPTION
    } else if code == VK_LCOMMAND || code == VK_RCOMMAND {
        FLAG_COMMAND
    } else {
        0
    }
}

/// The mouse button that a button name stands for.
pub open spec fn spec_button_code(name: Seq<char>) -> Option<u8> {
    if name == "left"@ {
        Some(0)
    } else if name == "right"@ {
        Some(1)
    } else if name == "middle"@ {
        Some(2)
    } else if name == "back"@ {
        Some(3)
    } else if name == "forward"@ {
        Some(4)
    } else {
        None
    }
}

/// The name of a mouse button; "unknown" past the five named ones.
pub open spec fn spec_button_name(code: u8) -> Seq<char> {
    if code == 0 {
        "left"@
    } else if code == 1 {
        "right"@
    } else if code == 2 {
        "middle"@
    } else if code == 3 {
        "back"@
    } else if code == 4 {
        "forward"@
    } else {
        "unknown"@
    }
}

/// The character sequence of an optional string slice.
pub open spec fn opt_str_view(s: Option<&str>) -> Option<Seq<char>> {
    match s {
        Some(t) => Some(t@),
        None => None,
    }
}

/// The key code of a letter or digit, taken in lower case.
pub fn char_key_code(c: char) -> (r: Option<u16>)
    ensures
        r == spec_char_key_code(c),
{
    if c == 'a' {
        Some(VK_A)
    } else if c == 'b' {
        Some(VK_B)
    } else if c == 'c' {
        Some(VK_C)
    } else if c == 'd' {
        Some(VK_D)
    } else if c == 'e' {
        Some(VK_E)
    } else if c == 'f' {
        Some(VK_F)
    } else if c == 'g' {
        Some(VK_G)
    } else if c == 'h' {
        Some(VK_H)
    } else if c == 'i' {
        Some(VK_I)
    } else if c == 'j' {
        Some(VK_J)
    } else if c == 'k' {
        Some(VK_K)
    } else if c == 'l' {
        Some(VK_L)
    } else if c == 'm' {
        Some(VK_M)
    } else if c == 'n' {
        Some(VK_N)
    } else if c == 'o' {
        Some(VK_O)
    } else if c == 'p' {
        Some(VK_P)
    } else if c == 'q' {
        Some(VK_Q)
    } else if c == 'r' {
        Some(VK_R)
    } else if c == 's' {
        Some(VK_S)
    } else if c == 't' {
        Some(VK_T)
    } else if c == 'u' {
        Some(VK_U)
    } else if c == 'v' {
        Some(VK_V)
    } else if c == 'w' {
        Some(VK_W)
    } else if c == 'x' {
        Some(VK_X)
    } else if c == 'y' {
        Some(VK_Y)
    } else if c == 'z' {
        Some(VK_Z)
    } else if c == '0' {
        Some(VK_0)
    } else if c == '1' {
        Some(VK_1)
    } else if c == '2' {
        Some(VK_2)
    } else if c == '3' {
        Some(VK_3)
    } else if c == '4' {
        Some(VK_4)
    } else if c == '5' {
        Some(VK_5)
    } else if c == '6' {
        Some(VK_6)
    } else if c == '7' {
        Some(VK_7)
    } else if c == '8' {
        Some(VK_8)
    } else if c == '9' {
        Some(VK_9)
    } else {
        None
    }
}

/// The key code that a key name stands for.
pub fn key_code_from_name(name: &str) -> (r: Option<u16>)
    ensures
        r == spec_key_code(name@),
{
    if str_eq(name, "Alt_L") {
        return Some(VK_LOPTION);
    }
    if str_eq(name, "Alt_R") {
        return Some(VK_ROPTION);
    }
    if str_eq(name, "Shift_L") {
        return Some(VK_LSHIFT);
    }
    if str_eq(name, "Shift_R") {
        return Some(VK_RSHIFT);
    }
    if str_eq(name, "Control_L") {
        return Some(VK_LCONTROL);
    }
    if str_eq(name, "Control_R") {
        return Some(VK_RCONTROL);
    }
    if str_eq(name, "Super_L") {
        return Some(VK_LCOMMAND);
    }
    if str_eq(name, "Super_R") {
        return Some(VK_RCOMMAND);
    }
    if str_eq(name, "space") {
        return Some(VK_SPACE);
    }
    if str_eq(name, "Return") {
        return Some(VK_RETURN);
    }
    if str_eq(name, "Escape") {
        return Some(VK_ESCAPE);
    }
    if str_eq(name, "BackSpace") {
        return Some(VK_DELETE);
    }
    if str_eq(name, "Tab") {
        return Some(VK_TAB);
    }
    if str_eq(name, "Caps_Lock") {
        return Some(VK_CAPSLOCK);
    }
    if str_eq(name, "Delete") {
        return Some(VK_FORWARD_DELETE);
    }
    if str_eq(name, "F1") {
        return Some(VK_F1);
    }
    if str_eq(name, "F2") {
        return Some(VK_F2);
    }
    if str_eq(name, "F3") {
        return Some(VK_F3);
    }
    if str_eq(name, "F4") {
        return Some(VK_F4);
    }
    if str_eq(name, "F5") {
        return Some(VK_F5);
    }
    if str_eq(name, "F6") {
        return Some(VK_F6);
    }
    if str_eq(name, "F7") {
        return Some(VK_F7);
    }
    if str_eq(name, "F8") {
        return Some(VK_F8);
    }
    if str_eq(name, "F9") {
        return Some(VK_F9);
    }
    if str_eq(name, "F10") {
        return Some(VK_F10);
    }
    if str_eq(name, "F11") {
        return Some(VK_F11);
    }
    if str_eq(name, "F12") {
        return Some(VK_F12);
    }
    proof {
        lemma_one_byte_iff_single_ascii(name@);
    }
    if name.as_bytes().len() == 1 {
        return char_key_code(lower_ascii_char(name.get_char(0)));
    }
    None
}

/// The canonical name of a key code.
pub fn key_name_from_code(code: u16) -> (r: Option<&'static str>)
    ensures
        opt_str_view(r) == spec_key_name(code),
{
    if code == VK_LOPTION {
        Some("Alt_L")
    } else if code == VK_ROPTION {
        Some("Alt_R")
    } else if code == VK_LSHIFT {
        Some("Shift_L")
    } else if code == VK_RSHIFT {
        Some("Shift_R")
    } else if code == VK_LCONTROL {
        Some("Control_L")
    } else if code == VK_RCONTROL {
        Some("Control_R")
    } else if code == VK_LCOMMAND {
        Some("Super_L")
    } else if code == VK_RCOMMAND {
        Some("Super_R")
    } else if code == VK_SPACE {
        Some("space")
    } else if code == VK_RETURN {
        Some("Return")
    } else if code == VK_ESCAPE {
        Some("Escape")
    } else if code == VK_DELETE {
        Some("BackSpace")
    } else if code == VK_TAB {
        Some("Tab")
    } else if code == VK_CAPSLOCK {
        Some("Caps_Lock")
    } else if code == VK_FORWARD_DELETE {
        Some("Delete")
    } else if code == VK_F1 {
        Some("F1")
    } else if code == VK_F2 {
        Some("F2")
    } else if code == VK_F3 {
        Some("F3")
    } else if code == VK_F4 {
        Some("F4")
    } else if code == VK_F5 {
        Some("F5")
    } else if code == VK_F6 {
        Some("F6")
    } else if code == VK_F7 {
        Some("F7")
    } else if code == VK_F8 {
        Some("F8")
    } else if code == VK_F9 {
        Some("F9")
    } else if code == VK_F10 {
        Some("F10")
    } else if code == VK_F11 {
        Some("F11")
    } else if code == VK_F12 {
        Some("F12")
    } else if code == VK_A {
        Some("a")
    } else if code == VK_B {
        Some("b")
    } else if code == VK_C {
        Some("c")
    } else if code == VK_D {
        Some("d")
    } else if code == VK_E {
        Some("e")
    } else if code == VK_F {
        Some("f")
    } else if code == VK_G {
        Some("g")
    } else if code == VK_H {
        Some("h")
    } else if code == VK_I {
        Some("i")
    } else if code == VK_J {
        Some("j")
    } else if code == VK_K {
        Some("k")
    } else if code == VK_L {
        Some("l")
    } else if code == VK_M {
        Some("m")
    } else if code == VK_N {
        Some("n")
    } else if code == VK_O {
        Some("o")
    } else if code == VK_P {
        Some("p")
    } else if code == VK_Q {
        Some("q")
    } else if code == VK_R {
        Some("r")
    } else if code == VK_S {
        Some("s")
    } else if code == VK_T {
        Some("t")
    } else if code == VK_U {
        Some("u")
    } else if code == VK_V {
        Some("v")
    } else if code == VK_W {
        Some("w")
    } else if code == VK_X {
        Some("x")
    } else if code == VK_Y {
        Some("y")
    } else if code == VK_Z {
        Some("z")
    } else if code == VK_0 {
        Some("0")
    } else if code == VK_1 {
        Some("1")
    } else if code == VK_2 {
        Some("2")
    } else if code == VK_3 {
        Some("3")
    } else if code == VK_4 {
        Some("4")
    } else if code == VK_5 {
        Some("5")
    } else if code == VK_6 {
        Some("6")
    } else if code == VK_7 {
        Some("7")
    } else if code == VK_8 {
        Some("8")
    } else if code == VK_9 {
        Some("9")
    } else {
        None
    }
}

/// Whether a key code is one of the eight modifier keys.
pub fn is_modifier(code: u16) -> (r: bool)
    ensures
        r == spec_is_modifier(code),
{
    code == VK_LOPTION || code == VK_ROPTION || code == VK_LSHIFT || code == VK_RSHIFT
        || code == VK_LCONTROL || code == VK_RCONTROL || code == VK_LCOMMAND || code == VK_RCOMMAND
}

/// The flag bit that a modifier key sets in an event's flags.
pub fn modifier_flag_for_keycode(code: u16) -> (r: u64)
    ensures
        r == spec_modifier_flag(code),
{
    if code == VK_LSHIFT || code == VK_RSHIFT {
        FLAG_SHIFT
    } else if code == VK_LCONTROL || code == VK_RCONTROL {
        FLAG_CONTROL
    } else if code == VK_LOPTION || code == VK_ROPTION {
        FLAG_OPTION
    } else if code == VK_LCOMMAND || code == VK_RCOMMAND {
        FLAG_COMMAND
    } else {
        0
    }
}

/// The mouse button that a button name stands for.
pub fn button_code_from_name(name: &str) -> (r: Option<u8>)
    ensures
        r == spec_button_code(name@),
{
    if str_eq(name, "left") {
        Some(0)
    } else if str_eq(name, "right") {
        Some(1)
    } else if str_eq(name, "middle") {
        Some(2)
    } else if str_eq(name, "back") {
        Some(3)
    } else if str_eq(name, "forward") {
        Some(4)
    } else {
        None
    }
}

/// The name of a mouse button.
pub fn button_name_from_code(code: u8) -> (r: &'static str)
    ensures
        r@ == spec_button_name(code),
{
    if code == 0 {
        "left"
    } else if code == 1 {
        "right"
    } else if code == 2 {
        "middle"
    } else if code == 3 {
        "back"
    } else if code == 4 {
        "forward"
    } else {
        "unknown"
    }
}

} // verus!
