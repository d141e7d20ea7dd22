//! What holds across the functions of the library.
use vstd::prelude::*;

use crate::keys::{
    spec_button_code, spec_button_name, spec_is_modifier, spec_key_code, spec_key_name,
    spec_modifier_flag, VK_0, VK_1, VK_2, VK_3, VK_4, VK_5, VK_6, VK_7, VK_8, VK_9, VK_A, VK_B,
    VK_C, VK_CAPSLOCK, VK_D, VK_DELETE, VK_E, VK_ESCAPE, VK_F, VK_F1, VK_F10, VK_F11, VK_F12,
    VK_F2, VK_F3, VK_F4, VK_F5, VK_F6, VK_F7, VK_F8, VK_F9, VK_FORWARD_DELETE, VK_G, VK_H, VK_I,
    VK_J, VK_K, VK_L, VK_LCOMMAND, VK_LCONTROL, VK_LOPTION, VK_LSHIFT, VK_M, VK_N, VK_O, VK_P,
    VK_Q, VK_R, VK_RCOMMAND, VK_RCONTROL, VK_RETURN, VK_ROPTION, VK_RSHIFT, VK_S, VK_SPACE,
    VK_T, VK_TAB, VK_U, VK_V, VK_W, VK_X, VK_Y, VK_Z,
};
use crate::shortcut::{
    key_codes_of, spec_button_to_name, spec_key_display_name, spec_mouse_display, spec_parse_shortcut, spec_shortcut_display,
    ShortcutModel,
};
use crate::text::{has_prefix, join_with, lemma_split_on_nonempty, split_on};

verus! {

/// The key names are told apart: each has its length, and two named keys of
/// one length differ at some position.
proof fn lemma_key_names_distinct()
    ensures
        "Alt_L"@.len() == 5,
        "Alt_R"@.len() == 5,
        "Shift_L"@.len() == 7,
        "Shift_R"@.len() == 7,
        "Control_L"@.len() == 9,
        "Control_R"@.len() == 9,
        "Super_L"@.len() == 7,
        "Super_R"@.len() == 7,
        "space"@.len() == 5,
        "Return"@.len() == 6,
        "Escape"@.len() == 6,
        "BackSpace"@.len() == 9,
        "Tab"@.len() == 3,
        "Caps_Lock"@.len() == 9,
        "Delete"@.len() == 6,
        "F1"@.len() == 2,
        "F2"@.len() == 2,
        "F3"@.len() == 2,
        "F4"@.len() == 2,
        "F5"@.len() == 2,
        "F6"@.len() == 2,
        "F7"@.len() == 2,
        "F8"@.len() == 2,
        "F9"@.len() == 2,
        "F10"@.len() == 3,
        "F11"@.len() == 3,
        "F12"@.len() == 3,
        "a"@.len() == 1,
        "b"@.len() == 1,
        "c"@.len() == 1,
        "d"@.len() == 1,
        "e"@.len() == 1,
        "f"@.len() == 1,
        "g"@.len() == 1,
        "h"@.len() == 1,
        "i"@.len() == 1,
        "j"@.len() == 1,
        "k"@.len() == 1,
        "l"@.len() == 1,
        "m"@.len() == 1,
        "n"@.len() == 1,
        "o"@.len() == 1,
        "p"@.len() == 1,
        "q"@.len() == 1,
        "r"@.len() == 1,
        "s"@.len() == 1,
        "t"@.len() == 1,
        "u"@.len() == 1,
        "v"@.len() == 1,
        "w"@.len() == 1,
        "x"@.len() == 1,
        "y"@.len() == 1,
        "z"@.len() == 1,
        "0"@.len() == 1,
        "1"@.len() == 1,
        "2"@.len() == 1,
        "3"@.len() == 1,
        "4"@.len() == 1,
        "5"@.len() == 1,
        "6"@.len() == 1,
        "7"@.len() == 1,
        "8"@.len() == 1,
        "9"@.len() == 1,
        "Alt_L"@[4] != "Alt_R"@[4],
        "Alt_L"@[0] != "space"@[0],
        "Alt_R"@[0] != "space"@[0],
        "Shift_L"@[6] != "Shift_R"@[6],
        "Shift_L"@[1] != "Super_L"@[1],
        "Shift_L"@[1] != "Super_R"@[1],
        "Shift_R"@[1] != "Super_L"@[1],
        "Shift_R"@[1] != "Super_R"@[1],
        "Control_L"@[8] != "Control_R"@[8],
        "Control_L"@[0] != "BackSpace"@[0],
        "Control_L"@[1] != "Caps_Lock"@[1],
        "Control_R"@[0] != "BackSpace"@[0],
        "Control_R"@[1] != "Caps_Lock"@[1],
        "Super_L"@[6] != "Super_R"@[6],
        "Return"@[0] != "Escape"@[0],
        "Return"@[0] != "Delete"@[0],
        "Escape"@[0] != "Delete"@[0],
        "BackSpace"@[0] != "Caps_Lock"@[0],
        "Tab"@[0] != "F10"@[0],
        "Tab"@[0] != "F11"@[0],
        "Tab"@[0] != "F12"@[0],
        "F1"@[1] != "F2"@[1],
        "F1"@[1] != "F3"@[1],
        "F1"@[1] != "F4"@[1],
        "F1"@[1] != "F5"@[1],
        "F1"@[1] != "F6"@[1],
        "F1"@[1] != "F7"@[1],
        "F1"@[1] != "F8"@[1],
        "F1"@[1] != "F9"@[1],
        "F2"@[1] != "F3"@[1],
        "F2"@[1] != "F4"@[1],
        "F2"@[1] != "F5"@[1],
        "F2"@[1] != "F6"@[1],
        "F2"@[1] != "F7"@[1],
        "F2"@[1] != "F8"@[1],
        "F2"@[1] != "F9"@[1],
        "F3"@[1] != "F4"@[1],
        "F3"@[1] != "F5"@[1],
        "F3"@[1] != "F6"@[1],
        "F3"@[1] != "F7"@[1],
        "F3"@[1] != "F8"@[1],
        "F3"@[1] != "F9"@[1],
        "F4"@[1] != "F5"@[1],
        "F4"@[1] != "F6"@[1],
        "F4"@[1] != "F7"@[1],
        "F4"@[1] != "F8"@[1],
        "F4"@[1] != "F9"@[1],
        "F5"@[1] != "F6"@[1],
        "F5"@[1] != "F7"@[1],
        "F5"@[1] != "F8"@[1],
        "F5"@[1] != "F9"@[1],
        "F6"@[1] != "F7"@[1],
        "F6"@[1] != "F8"@[1],
        "F6"@[1] != "F9"@[1],
        "F7"@[1] != "F8"@[1],
        "F7"@[1] != "F9"@[1],
        "F8"@[1] != "F9"@[1],
        "F10"@[2] != "F11"@[2],
        "F10"@[2] != "F12"@[2],
        "F11"@[2] != "F12"@[2],
        "a"@[0] == 'a',
        "b"@[0] == 'b',
        "c"@[0] == 'c',
        "d"@[0] == 'd',
        "e"@[0] == 'e',
        "f"@[0] == 'f',
        "g"@[0] == 'g',
        "h"@[0] == 'h',
        "i"@[0] == 'i',
        "j"@[0] == 'j',
        "k"@[0] == 'k',
        "l"@[0] == 'l',
        "m"@[0] == 'm',
        "n"@[0] == 'n',
        "o"@[0] == 'o',
        "p"@[0] == 'p',
        "q"@[0] == 'q',
        "r"@[0] == 'r',
        "s"@[0] == 's',
        "t"@[0] == 't',
        "u"@[0] == 'u',
        "v"@[0] == 'v',
        "w"@[0] == 'w',
        "x"@[0] == 'x',
        "y"@[0] == 'y',
        "z"@[0] == 'z',
        "0"@[0] == '0',
        "1"@[0] == '1',
        "2"@[0] == '2',
        "3"@[0] == '3',
        "4"@[0] == '4',
        "5"@[0] == '5',
        "6"@[0] == '6',
        "7"@[0] == '7',
        "8"@[0] == '8',
        "9"@[0] == '9',
{
    reveal_strlit("Alt_L");
    reveal_strlit("Alt_R");
    reveal_strlit("Shift_L");
    reveal_strlit("Shift_R");
    reveal_strlit("Control_L");
    reveal_strlit("Control_R");
    reveal_strlit("Super_L");
    reveal_strlit("Super_R");
    reveal_strlit("space");
    reveal_strlit("Return");
    reveal_strlit("Escape");
    reveal_strlit("BackSpace");
    reveal_strlit("Tab");
    reveal_strlit("Caps_Lock");
    reveal_strlit("Delete");
    reveal_strlit("F1");
    reveal_strlit("F2");
    reveal_strlit("F3");
    reveal_strlit("F4");
    reveal_strlit("F5");
    reveal_strlit("F6");
    reveal_strlit("F7");
    reveal_strlit("F8");
    reveal_strlit("F9");
    reveal_strlit("F10");
    reveal_strlit("F11");
    reveal_strlit("F12");
    reveal_strlit("a");
    reveal_strlit("b");
    reveal_strlit("c");
    reveal_strlit("d");
    reveal_strlit("e");
    reveal_strlit("f");
    reveal_strlit("g");
    reveal_strlit("h");
    reveal_strlit("i");
    reveal_strlit("j");
    reveal_strlit("k");
    reveal_strlit("l");
    reveal_strlit("m");
    reveal_strlit("n");
    reveal_strlit("o");
    reveal_strlit("p");
    reveal_strlit("q");
    reveal_strlit("r");
    reveal_strlit("s");
    reveal_strlit("t");
    reveal_strlit("u");
    reveal_strlit("v");
    reveal_strlit("w");
    reveal_strlit("x");
    reveal_strlit("y");
    reveal_strlit("z");
    reveal_strlit("0");
    reveal_strlit("1");
    reveal_strlit("2");
    reveal_strlit("3");
    reveal_strlit("4");
    reveal_strlit("5");
    reveal_strlit("6");
    reveal_strlit("7");
    reveal_strlit("8");
    reveal_strlit("9");
}

/// Every key code that has a name is what that name stands for: naming a
/// key and reading the name back gives the same key.
pub proof fn lemma_key_name_round_trip(code: u16)
    requires
        spec_key_name(code) is Some,
    ensures
        spec_key_code(spec_key_name(code)->0) == Some(code),
{
    lemma_key_names_distinct();
    if code == VK_LOPTION {
        assert(spec_key_code("Alt_L"@) == Some(VK_LOPTION));
    } else if code == VK_ROPTION {
        assert(spec_key_code("Alt_R"@) == Some(VK_ROPTION));
    } else if code == VK_LSHIFT {
        assert(spec_key_code("Shift_L"@) == Some(VK_LSHIFT));
    } else if code == VK_RSHIFT {
        assert(spec_key_code("Shift_R"@) == Some(VK_RSHIFT));
    } else if code == VK_LCONTROL {
        assert(spec_key_code("Control_L"@) == Some(VK_LCONTROL));
    } else if code == VK_RCONTROL {
        assert(spec_key_code("Control_R"@) == Some(VK_RCONTROL));
    } else if code == VK_LCOMMAND {
        assert(spec_key_code("Super_L"@) == Some(VK_LCOMMAND));
    } else if code == VK_RCOMMAND {
        assert(spec_key_code("Super_R"@) == Some(VK_RCOMMAND));
    } else if code == VK_SPACE {
        assert(spec_key_code("space"@) == Some(VK_SPACE));
    } else if code == VK_RETURN {
        assert(spec_key_code("Return"@) == Some(VK_RETURN));
    } else if code == VK_ESCAPE {
        assert(spec_key_code("Escape"@) == Some(VK_ESCAPE));
    } else if code == VK_DELETE {
        assert(spec_key_code("BackSpace"@) == Some(VK_DELETE));
    } else if code == VK_TAB {
        assert(spec_key_code("Tab"@) == Some(VK_TAB));
    } else if code == VK_CAPSLOCK {
        assert(spec_key_code("Caps_Lock"@) == Some(VK_CAPSLOCK));
    } else if code == VK_FORWARD_DELETE {
        assert(spec_key_code("Delete"@) == Some(VK_FORWARD_DELETE));
    } else if code == VK_F1 {
        assert(spec_key_code("F1"@) == Some(VK_F1));
    } else if code == VK_F2 {
        assert(spec_key_code("F2"@) == Some(VK_F2));
    } else if code == VK_F3 {
        assert(spec_key_code("F3"@) == Some(VK_F3));
    } else if code == VK_F4 {
        assert(spec_key_code("F4"@) == Some(VK_F4));
    } else if code == VK_F5 {
        assert(spec_key_code("F5"@) == Some(VK_F5));
    } else if code == VK_F6 {
        assert(spec_key_code("F6"@) == Some(VK_F6));
    } else if code == VK_F7 {
        assert(spec_key_code("F7"@) == Some(VK_F7));
    } else if code == VK_F8 {
        assert(spec_key_code("F8"@) == Some(VK_F8));
    } else if code == VK_F9 {
        assert(spec_key_code("F9"@) == Some(VK_F9));
    } else if code == VK_F10 {
        assert(spec_key_code("F10"@) == Some(VK_F10));
    } else if code == VK_F11 {
        assert(spec_key_code("F11"@) == Some(VK_F11));
    } else if code == VK_F12 {
        assert(spec_key_code("F12"@) == Some(VK_F12));
    } else if code == VK_A {
        assert(spec_key_code("a"@) == Some(VK_A));
    } else if code == VK_B {
        assert(spec_key_code("b"@) == Some(VK_B));
    } else if code == VK_C {
        assert(spec_key_code("c"@) == Some(VK_C));
    } else if code == VK_D {
        assert(spec_key_code("d"@) == Some(VK_D));
    } else if code == VK_E {
        assert(spec_key_code("e"@) == Some(VK_E));
    } else if code == VK_F {
        assert(spec_key_code("f"@) == Some(VK_F));
    } else if code == VK_G {
        assert(spec_key_code("g"@) == Some(VK_G));
    } else if code == VK_H {
        assert(spec_key_code("h"@) == Some(VK_H));
    } else if code == VK_I {
        assert(spec_key_code("i"@) == Some(VK_I));
    } else if code == VK_J {
        assert(spec_key_code("j"@) == Some(VK_J));
    } else if code == VK_K {
        assert(spec_key_code("k"@) == Some(VK_K));
    } else if code == VK_L {
        assert(spec_key_code("l"@) == Some(VK_L));
    } else if code == VK_M {
        assert(spec_key_code("m"@) == Some(VK_M));
    } else if code == VK_N {
        assert(spec_key_code("n"@) == Some(VK_N));
    } else if code == VK_O {
        assert(spec_key_code("o"@) == Some(VK_O));
    } else if code == VK_P {
        assert(spec_key_code("p"@) == Some(VK_P));
    } else if code == VK_Q {
        assert(spec_key_code("q"@) == Some(VK_Q));
    } else if code == VK_R {
        assert(spec_key_code("r"@) == Some(VK_R));
    } else if code == VK_S {
        assert(spec_key_code("s"@) == Some(VK_S));
    } else if code == VK_T {
        assert(spec_key_code("t"@) == Some(VK_T));
    } else if code == VK_U {
        assert(spec_key_code("u"@) == Some(VK_U));
    } else if code == VK_V {
        assert(spec_key_code("v"@) == Some(VK_V));
    } else if code == VK_W {
        assert(spec_key_code("w"@) == Some(VK_W));
    } else if code == VK_X {
        assert(spec_key_code("x"@) == Some(VK_X));
    } else if code == VK_Y {
        assert(spec_key_code("y"@) == Some(VK_Y));
    } else if code == VK_Z {
        assert(spec_key_code("z"@) == Some(VK_Z));
    } else if code == VK_0 {
        assert(spec_key_code("0"@) == Some(VK_0));
    } else if code == VK_1 {
        assert(spec_key_code("1"@) == Some(VK_1));
    } else if code == VK_2 {
        assert(spec_key_code("2"@) == Some(VK_2));
    } else if code == VK_3 {
        assert(spec_key_code("3"@) == Some(VK_3));
    } else if code == VK_4 {
        assert(spec_key_code("4"@) == Some(VK_4));
    } else if code == VK_5 {
        assert(spec_key_code("5"@) == Some(VK_5));
    } else if code == VK_6 {
        assert(spec_key_code("6"@) == Some(VK_6));
    } else if code == VK_7 {
        assert(spec_key_code("7"@) == Some(VK_7));
    } else if code == VK_8 {
        assert(spec_key_code("8"@) == Some(VK_8));
    } else if code == VK_9 {
        assert(spec_key_code("9"@) == Some(VK_9));
    }
}

/// Every key name that stands for a key has a canonical name, and that name
/// stands for the same key: a name read from the settings and written back
/// in canonical form is read as the same key.
pub proof fn lemma_key_code_has_name(name: Seq<char>)
    requires
        spec_key_code(name) is Some,
    ensures
        spec_key_name(spec_key_code(name)->0) is Some,
        spec_key_code(spec_key_name(spec_key_code(name)->0)->0) == spec_key_code(name),
{
    let c = spec_key_code(name)->0;
    assert(spec_key_name(c) is Some);
    lemma_key_name_round_trip(c);
}

/// A key's canonical name, stored as a key shortcut, parses back to that key.
pub proof fn lemma_key_shortcut_round_trip(code: u16)
    requires
        spec_key_name(code) is Some,
    ensures
        spec_parse_shortcut("key:"@ + spec_key_name(code)->0) == ShortcutModel::SingleKey(code),
{
    let n = spec_key_name(code)->0;
    let s = "key:"@ + n;
    reveal_strlit("key:");
    reveal_strlit("mouse:");
    reveal_strlit("combo:");
    lemma_key_name_round_trip(code);
    assert(s[0] == 'k');
    assert(s.subrange(0, 4) =~= "key:"@);
    assert(s.skip(4) =~= n);
    assert(!has_prefix(s, "mouse:"@)) by {
        if has_prefix(s, "mouse:"@) {
            assert(s.subrange(0, 6)[0] == 'm');
        }
    }
    assert(!has_prefix(s, "combo:"@)) by {
        if has_prefix(s, "combo:"@) {
            assert(s.subrange(0, 6)[0] == 'c');
        }
    }
}

/// The five named mouse buttons are read back from their names; the name of
/// any other button names none.
pub proof fn lemma_button_name_round_trip(code: u8)
    ensures
        spec_button_code(spec_button_name(code)) == (if code < 5 {
            Some(code)
        } else {
            None
        }),
{
    reveal_strlit("left");
    reveal_strlit("right");
    reveal_strlit("middle");
    reveal_strlit("back");
    reveal_strlit("forward");
    reveal_strlit("unknown");
    assert("left"@.len() == 4 && "back"@.len() == 4 && "left"@[0] != "back"@[0]);
    assert("right"@.len() == 5);
    assert("middle"@.len() == 6);
    assert("forward"@.len() == 7 && "unknown"@.len() == 7 && "forward"@[0] != "unknown"@[0]);
}

/// A mouse button captured as a shortcut string parses back to that button,
/// for the five buttons that have names; any other is no shortcut.
pub proof fn lemma_captured_button_parses(code: u8)
    ensures
        spec_parse_shortcut(spec_button_to_name(code)) == (if code < 5 {
            ShortcutModel::MouseButton(code)
        } else {
            ShortcutModel::Unset
        }),
{
    let s = spec_button_to_name(code);
    reveal_strlit("mouse:");
    assert(s.subrange(0, 6) =~= "mouse:"@);
    assert(s.skip(6) =~= spec_button_name(code));
    lemma_button_name_round_trip(code);
}

/// A combination parsed from the settings always has at least two keys.
pub proof fn lemma_parsed_combo_has_two_keys(s: Seq<char>)
    ensures
        spec_parse_shortcut(s) matches ShortcutModel::Combo(keys) ==> keys.len() >= 2,
{
}

/// A key is a modifier exactly where it has a modifier flag bit.
pub proof fn lemma_modifier_has_flag(code: u16)
    ensures
        spec_is_modifier(code) <==> spec_modifier_flag(code) != 0,
{
}

/// The length of each label of a named key.
proof fn lemma_key_label_lengths()
    ensures
        "Left Option \u{2325}"@.len() == 13,
        "Right Option \u{2325}"@.len() == 14,
        "Left Shift \u{21e7}"@.len() == 12,
        "Right Shift \u{21e7}"@.len() == 13,
        "Left Control \u{2303}"@.len() == 14,
        "Right Control \u{2303}"@.len() == 15,
        "Left Command \u{2318}"@.len() == 14,
        "Right Command \u{2318}"@.len() == 15,
        "Space"@.len() == 5,
        "Return \u{21a9}"@.len() == 8,
        "Esc"@.len() == 3,
        "Delete \u{232b}"@.len() == 8,
        "Tab \u{21e5}"@.len() == 5,
        "Caps_Lock"@.len() == 9,
        "Delete"@.len() == 6,
        "F1"@.len() == 2,
        "F2"@.len() == 2,
        "F3"@.len() == 2,
        "F4"@.len() == 2,
        "F5"@.len() == 2,
        "F6"@.len() == 2,
        "F7"@.len() == 2,
        "F8"@.len() == 2,
        "F9"@.len() == 2,
        "F10"@.len() == 3,
        "F11"@.len() == 3,
        "F12"@.len() == 3,
        "A"@.len() == 1,
        "B"@.len() == 1,
        "C"@.len() == 1,
        "D"@.len() == 1,
        "E"@.len() == 1,
        "F"@.len() == 1,
        "G"@.len() == 1,
        "H"@.len() == 1,
        "I"@.len() == 1,
        "J"@.len() == 1,
        "K"@.len() == 1,
        "L"@.len() == 1,
        "M"@.len() == 1,
        "N"@.len() == 1,
        "O"@.len() == 1,
        "P"@.len() == 1,
        "Q"@.len() == 1,
        "R"@.len() == 1,
        "S"@.len() == 1,
        "T"@.len() == 1,
        "U"@.len() == 1,
        "V"@.len() == 1,
        "W"@.len() == 1,
        "X"@.len() == 1,
        "Y"@.len() == 1,
        "Z"@.len() == 1,
        "0"@.len() == 1,
        "1"@.len() == 1,
        "2"@.len() == 1,
        "3"@.len() == 1,
        "4"@.len() == 1,
        "5"@.len() == 1,
        "6"@.len() == 1,
        "7"@.len() == 1,
        "8"@.len() == 1,
        "9"@.len() == 1,
{
    reveal_strlit("Left Option \u{2325}");
    reveal_strlit("Right Option \u{2325}");
    reveal_strlit("Left Shift \u{21e7}");
    reveal_strlit("Right Shift \u{21e7}");
    reveal_strlit("Left Control \u{2303}");
    reveal_strlit("Right Control \u{2303}");
    reveal_strlit("Left Command \u{2318}");
    reveal_strlit("Right Command \u{2318}");
    reveal_strlit("Space");
    reveal_strlit("Return \u{21a9}");
    reveal_strlit("Esc");
    reveal_strlit("Delete \u{232b}");
    reveal_strlit("Tab \u{21e5}");
    reveal_strlit("Caps_Lock");
    reveal_strlit("Delete");
    reveal_strlit("F1");
    reveal_strlit("F2");
    reveal_strlit("F3");
    reveal_strlit("F4");
    reveal_strlit("F5");
    reveal_strlit("F6");
    reveal_strlit("F7");
    reveal_strlit("F8");
    reveal_strlit("F9");
    reveal_strlit("F10");
    reveal_strlit("F11");
    reveal_strlit("F12");
    reveal_strlit("A");
    reveal_strlit("B");
    reveal_strlit("C");
    reveal_strlit("D");
    reveal_strlit("E");
    reveal_strlit("F");
    reveal_strlit("G");
    reveal_strlit("H");
    reveal_strlit("I");
    reveal_strlit("J");
    reveal_strlit("K");
    reveal_strlit("L");
    reveal_strlit("M");
    reveal_strlit("N");
    reveal_strlit("O");
    reveal_strlit("P");
    reveal_strlit("Q");
    reveal_strlit("R");
    reveal_strlit("S");
    reveal_strlit("T");
    reveal_strlit("U");
    reveal_strlit("V");
    reveal_strlit("W");
    reveal_strlit("X");
    reveal_strlit("Y");
    reveal_strlit("Z");
    reveal_strlit("0");
    reveal_strlit("1");
    reveal_strlit("2");
    reveal_strlit("3");
    reveal_strlit("4");
    reveal_strlit("5");
    reveal_strlit("6");
    reveal_strlit("7");
    reveal_strlit("8");
    reveal_strlit("9");
}

/// The characters of the short labels, and a position at which any two
/// longer labels of one length differ.
proof fn lemma_key_label_chars()
    ensures
        "Esc"@[0] == 'E',
        "Esc"@[1] == 's',
        "Esc"@[2] == 'c',
        "F1"@[0] == 'F',
        "F1"@[1] == '1',
        "F2"@[0] == 'F',
        "F2"@[1] == '2',
        "F3"@[0] == 'F',
        "F3"@[1] == '3',
        "F4"@[0] == 'F',
        "F4"@[1] == '4',
        "F5"@[0] == 'F',
        "F5"@[1] == '5',
        "F6"@[0] == 'F',
        "F6"@[1] == '6',
        "F7"@[0] == 'F',
        "F7"@[1] == '7',
        "F8"@[0] == 'F',
        "F8"@[1] == '8',
        "F9"@[0] == 'F',
        "F9"@[1] == '9',
        "F10"@[0] == 'F',
        "F10"@[1] == '1',
        "F10"@[2] == '0',
        "F11"@[0] == 'F',
        "F11"@[1] == '1',
        "F11"@[2] == '1',
        "F12"@[0] == 'F',
        "F12"@[1] == '1',
        "F12"@[2] == '2',
        "A"@[0] == 'A',
        "B"@[0] == 'B',
        "C"@[0] == 'C',
        "D"@[0] == 'D',
        "E"@[0] == 'E',
        "F"@[0] == 'F',
        "G"@[0] == 'G',
        "H"@[0] == 'H',
        "I"@[0] == 'I',
        "J"@[0] == 'J',
        "K"@[0] == 'K',
        "L"@[0] == 'L',
        "M"@[0] == 'M',
        "N"@[0] == 'N',
        "O"@[0] == 'O',
        "P"@[0] == 'P',
        "Q"@[0] == 'Q',
        "R"@[0] == 'R',
        "S"@[0] == 'S',
        "T"@[0] == 'T',
        "U"@[0] == 'U',
        "V"@[0] == 'V',
        "W"@[0] == 'W',
        "X"@[0] == 'X',
        "Y"@[0] == 'Y',
        "Z"@[0] == 'Z',
        "0"@[0] == '0',
        "1"@[0] == '1',
        "2"@[0] == '2',
        "3"@[0] == '3',
        "4"@[0] == '4',
        "5"@[0] == '5',
        "6"@[0] == '6',
        "7"@[0] == '7',
        "8"@[0] == '8',
        "9"@[0] == '9',
        "Left Option \u{2325}"@[0] != "Right Shift \u{21e7}"@[0],
        "Right Option \u{2325}"@[0] != "Left Control \u{2303}"@[0],
        "Right Option \u{2325}"@[0] != "Left Command \u{2318}"@[0],
        "Left Control \u{2303}"@[7] != "Left Command \u{2318}"@[7],
        "Right Control \u{2303}"@[8] != "Right Command \u{2318}"@[8],
        "Space"@[0] != "Tab \u{21e5}"@[0],
        "Return \u{21a9}"@[0] != "Delete \u{232b}"@[0],
{
    reveal_strlit("Left Option \u{2325}");
    reveal_strlit("Right Option \u{2325}");
    reveal_strlit("Left Shift \u{21e7}");
    reveal_strlit("Right Shift \u{21e7}");
    reveal_strlit("Left Control \u{2303}");
    reveal_strlit("Right Control \u{2303}");
    reveal_strlit("Left Command \u{2318}");
    reveal_strlit("Right Command \u{2318}");
    reveal_strlit("Space");
    reveal_strlit("Return \u{21a9}");
    reveal_strlit("Esc");
    reveal_strlit("Delete \u{232b}");
    reveal_strlit("Tab \u{21e5}");
    reveal_strlit("Caps_Lock");
    reveal_strlit("Delete");
    reveal_strlit("F1");
    reveal_strlit("F2");
    reveal_strlit("F3");
    reveal_strlit("F4");
    reveal_strlit("F5");
    reveal_strlit("F6");
    reveal_strlit("F7");
    reveal_strlit("F8");
    reveal_strlit("F9");
    reveal_strlit("F10");
    reveal_strlit("F11");
    reveal_strlit("F12");
    reveal_strlit("A");
    reveal_strlit("B");
    reveal_strlit("C");
    reveal_strlit("D");
    reveal_strlit("E");
    reveal_strlit("F");
    reveal_strlit("G");
    reveal_strlit("H");
    reveal_strlit("I");
    reveal_strlit("J");
    reveal_strlit("K");
    reveal_strlit("L");
    reveal_strlit("M");
    reveal_strlit("N");
    reveal_strlit("O");
    reveal_strlit("P");
    reveal_strlit("Q");
    reveal_strlit("R");
    reveal_strlit("S");
    reveal_strlit("T");
    reveal_strlit("U");
    reveal_strlit("V");
    reveal_strlit("W");
    reveal_strlit("X");
    reveal_strlit("Y");
    reveal_strlit("Z");
    reveal_strlit("0");
    reveal_strlit("1");
    reveal_strlit("2");
    reveal_strlit("3");
    reveal_strlit("4");
    reveal_strlit("5");
    reveal_strlit("6");
    reveal_strlit("7");
    reveal_strlit("8");
    reveal_strlit("9");
}

/// The named key whose label is `label`.
spec fn key_of_label(label: Seq<char>) -> Option<u16> {
    if label == "Left Option \u{2325}"@ {
        Some(VK_LOPTION)
    } else if label == "Right Option \u{2325}"@ {
        Some(VK_ROPTION)
    } else if label == "Left Shift \u{21e7}"@ {
        Some(VK_LSHIFT)
    } else if label == "Right Shift \u{21e7}"@ {
        Some(VK_RSHIFT)
    } else if label == "Left Control \u{2303}"@ {
        Some(VK_LCONTROL)
    } else if label == "Right Control \u{2303}"@ {
        Some(VK_RCONTROL)
    } else if label == "Left Command \u{2318}"@ {
        Some(VK_LCOMMAND)
    } else if label == "Right Command \u{2318}"@ {
        Some(VK_RCOMMAND)
    } else if label == "Space"@ {
        Some(VK_SPACE)
    } else if label == "Return \u{21a9}"@ {
        Some(VK_RETURN)
    } else if label == "Esc"@ {
        Some(VK_ESCAPE)
    } else if label == "Delete \u{232b}"@ {
        Some(VK_DELETE)
    } else if label == "Tab \u{21e5}"@ {
        Some(VK_TAB)
    } else if label == "Caps_Lock"@ {
        Some(VK_CAPSLOCK)
    } else if label == "Delete"@ {
        Some(VK_FORWARD_DELETE)
    } else if label == "F1"@ {
        Some(VK_F1)
    } else if label == "F2"@ {
        Some(VK_F2)
    } else if label == "F3"@ {
        Some(VK_F3)
    } else if label == "F4"@ {
        Some(VK_F4)
    } else if label == "F5"@ {
        Some(VK_F5)
    } else if label == "F6"@ {
        Some(VK_F6)
    } else if label == "F7"@ {
        Some(VK_F7)
    } else if label == "F8"@ {
        Some(VK_F8)
    } else if label == "F9"@ {
        Some(VK_F9)
    } else if label == "F10"@ {
        Some(VK_F10)
    } else if label == "F11"@ {
        Some(VK_F11)
    } else if label == "F12"@ {
        Some(VK_F12)
    } else if label == "A"@ {
        Some(VK_A)
    } else if label == "B"@ {
        Some(VK_B)
    } else if label == "C"@ {
        Some(VK_C)
    } else if label == "D"@ {
        Some(VK_D)
    } else if label == "E"@ {
        Some(VK_E)
    } else if label == "F"@ {
        Some(VK_F)
    } else if label == "G"@ {
        Some(VK_G)
    } else if label == "H"@ {
        Some(VK_H)
    } else if label == "I"@ {
        Some(VK_I)
    } else if label == "J"@ {
        Some(VK_J)
    } else if label == "K"@ {
        Some(VK_K)
    } else if label == "L"@ {
        Some(VK_L)
    } else if label == "M"@ {
        Some(VK_M)
    } else if label == "N"@ {
        Some(VK_N)
    } else if label == "O"@ {
        Some(VK_O)
    } else if label == "P"@ {
        Some(VK_P)
    } else if label == "Q"@ {
        Some(VK_Q)
    } else if label == "R"@ {
        Some(VK_R)
    } else if label == "S"@ {
        Some(VK_S)
    } else if label == "T"@ {
        Some(VK_T)
    } else if label == "U"@ {
        Some(VK_U)
    } else if label == "V"@ {
        Some(VK_V)
    } else if label == "W"@ {
        Some(VK_W)
    } else if label == "X"@ {
        Some(VK_X)
    } else if label == "Y"@ {
        Some(VK_Y)
    } else if label == "Z"@ {
        Some(VK_Z)
    } else if label == "0"@ {
        Some(VK_0)
    } else if label == "1"@ {
        Some(VK_1)
    } else if label == "2"@ {
        Some(VK_2)
    } else if label == "3"@ {
        Some(VK_3)
    } else if label == "4"@ {
        Some(VK_4)
    } else if label == "5"@ {
        Some(VK_5)
    } else if label == "6"@ {
        Some(VK_6)
    } else if label == "7"@ {
        Some(VK_7)
    } else if label == "8"@ {
        Some(VK_8)
    } else if label == "9"@ {
        Some(VK_9)
    } else {
        None
    }
}

/// The label of each named key leads back to that key.
proof fn lemma_key_label_decodes(code: u16)
    requires
        spec_key_name(code) is Some,
    ensures
        key_of_label(spec_key_display_name(spec_key_name(code)->0)) == Some(code),
{
    lemma_key_names_distinct();
    lemma_key_label_lengths();
    lemma_key_label_chars();
    if code == VK_LOPTION {
        assert(spec_key_display_name("Alt_L"@) == "Left Option \u{2325}"@);
        assert(key_of_label("Left Option \u{2325}"@) == Some(VK_LOPTION));
    } else if code == VK_ROPTION {
        assert(spec_key_display_name("Alt_R"@) == "Right Option \u{2325}"@);
        assert(key_of_label("Right Option \u{2325}"@) == Some(VK_ROPTION));
    } else if code == VK_LSHIFT {
        assert(spec_key_display_name("Shift_L"@) == "Left Shift \u{21e7}"@);
        assert(key_of_label("Left Shift \u{21e7}"@) == Some(VK_LSHIFT));
    } else if code == VK_RSHIFT {
        assert(spec_key_display_name("Shift_R"@) == "Right Shift \u{21e7}"@);
        assert(key_of_label("Right Shift \u{21e7}"@) == Some(VK_RSHIFT));
    } else if code == VK_LCONTROL {
        assert(spec_key_display_name("Control_L"@) == "Left Control \u{2303}"@);
        assert(key_of_label("Left Control \u{2303}"@) == Some(VK_LCONTROL));
    } else if code == VK_RCONTROL {
        assert(spec_key_display_name("Control_R"@) == "Right Control \u{2303}"@);
        assert(key_of_label("Right Control \u{2303}"@) == Some(VK_RCONTROL));
    } else if code == VK_LCOMMAND {
        assert(spec_key_display_name("Super_L"@) == "Left Command \u{2318}"@);
        assert(key_of_label("Left Command \u{2318}"@) == Some(VK_LCOMMAND));
    } else if code == VK_RCOMMAND {
        assert(spec_key_display_name("Super_R"@) == "Right Command \u{2318}"@);
        assert(key_of_label("Right Command \u{2318}"@) == Some(VK_RCOMMAND));
    } else if code == VK_SPACE {
        assert(spec_key_display_name("space"@) == "Space"@);
        assert(key_of_label("Space"@) == Some(VK_SPACE));
    } else if code == VK_RETURN {
        assert(spec_key_display_name("Return"@) == "Return \u{21a9}"@);
        assert(key_of_label("Return \u{21a9}"@) == Some(VK_RETURN));
    } else if code == VK_ESCAPE {
        assert(spec_key_display_name("Escape"@) == "Esc"@);
        assert(key_of_label("Esc"@) == Some(VK_ESCAPE));
    } else if code == VK_DELETE {
        assert(spec_key_display_name("BackSpace"@) == "Delete \u{232b}"@);
        assert(key_of_label("Delete \u{232b}"@) == Some(VK_DELETE));
    } else if code == VK_TAB {
        assert(spec_key_display_name("Tab"@) == "Tab \u{21e5}"@);
        assert(key_of_label("Tab \u{21e5}"@) == Some(VK_TAB));
    } else if code == VK_CAPSLOCK {
        assert(spec_key_display_name("Caps_Lock"@) == "Caps_Lock"@);
        assert(key_of_label("Caps_Lock"@) == Some(VK_CAPSLOCK));
    } else if code == VK_FORWARD_DELETE {
        assert(spec_key_display_name("Delete"@) == "Delete"@);
        assert(key_of_label("Delete"@) == Some(VK_FORWARD_DELETE));
    } else if code == VK_F1 {
        assert(spec_key_display_name("F1"@) == "F1"@);
        assert(key_of_label("F1"@) == Some(VK_F1));
    } else if code == VK_F2 {
        assert(spec_key_display_name("F2"@) == "F2"@);
        assert(key_of_label("F2"@) == Some(VK_F2));
    } else if code == VK_F3 {
        assert(spec_key_display_name("F3"@) == "F3"@);
        assert(key_of_label("F3"@) == Some(VK_F3));
    } else if code == VK_F4 {
        assert(spec_key_display_name("F4"@) == "F4"@);
        assert(key_of_label("F4"@) == Some(VK_F4));
    } else if code == VK_F5 {
        assert(spec_key_display_name("F5"@) == "F5"@);
        assert(key_of_label("F5"@) == Some(VK_F5));
    } else if code == VK_F6 {
        assert(spec_key_display_name("F6"@) == "F6"@);
        assert(key_of_label("F6"@) == Some(VK_F6));
    } else if code == VK_F7 {
        assert(spec_key_display_name("F7"@) == "F7"@);
        assert(key_of_label("F7"@) == Some(VK_F7));
    } else if code == VK_F8 {
        assert(spec_key_display_name("F8"@) == "F8"@);
        assert(key_of_label("F8"@) == Some(VK_F8));
    } else if code == VK_F9 {
        assert(spec_key_display_name("F9"@) == "F9"@);
        assert(key_of_label("F9"@) == Some(VK_F9));
    } else if code == VK_F10 {
        assert(spec_key_display_name("F10"@) == "F10"@);
        assert(key_of_label("F10"@) == Some(VK_F10));
    } else if code == VK_F11 {
        assert(spec_key_display_name("F11"@) == "F11"@);
        assert(key_of_label("F11"@) == Some(VK_F11));
    } else if code == VK_F12 {
        assert(spec_key_display_name("F12"@) == "F12"@);
        assert(key_of_label("F12"@) == Some(VK_F12));
    } else if code == VK_A {
        assert(spec_key_display_name("a"@) =~= "A"@);
        assert(key_of_label("A"@) == Some(VK_A));
    } else if code == VK_B {
        assert(spec_key_display_name("b"@) =~= "B"@);
        assert(key_of_label("B"@) == Some(VK_B));
    } else if code == VK_C {
        assert(spec_key_display_name("c"@) =~= "C"@);
        assert(key_of_label("C"@) == Some(VK_C));
    } else if code == VK_D {
        assert(spec_key_display_name("d"@) =~= "D"@);
        assert(key_of_label("D"@) == Some(VK_D));
    } else if code == VK_E {
        assert(spec_key_display_name("e"@) =~= "E"@);
        assert(key_of_label("E"@) == Some(VK_E));
    } else if code == VK_F {
        assert(spec_key_display_name("f"@) =~= "F"@);
        assert(key_of_label("F"@) == Some(VK_F));
    } else if code == VK_G {
        assert(spec_key_display_name("g"@) =~= "G"@);
        assert(key_of_label("G"@) == Some(VK_G));
    } else if code == VK_H {
        assert(spec_key_display_name("h"@) =~= "H"@);
        assert(key_of_label("H"@) == Some(VK_H));
    } else if code == VK_I {
        assert(spec_key_display_name("i"@) =~= "I"@);
        assert(key_of_label("I"@) == Some(VK_I));
    } else if code == VK_J {
        assert(spec_key_display_name("j"@) =~= "J"@);
        assert(key_of_label("J"@) == Some(VK_J));
    } else if code == VK_K {
        assert(spec_key_display_name("k"@) =~= "K"@);
        assert(key_of_label("K"@) == Some(VK_K));
    } else if code == VK_L {
        assert(spec_key_display_name("l"@) =~= "L"@);
        assert(key_of_label("L"@) == Some(VK_L));
    } else if code == VK_M {
        assert(spec_key_display_name("m"@) =~= "M"@);
        assert(key_of_label("M"@) == Some(VK_M));
    } else if code == VK_N {
        assert(spec_key_display_name("n"@) =~= "N"@);
        assert(key_of_label("N"@) == Some(VK_N));
    } else if code == VK_O {
        assert(spec_key_display_name("o"@) =~= "O"@);
        assert(key_of_label("O"@) == Some(VK_O));
    } else if code == VK_P {
        assert(spec_key_display_name("p"@) =~= "P"@);
        assert(key_of_label("P"@) == Some(VK_P));
    } else if code == VK_Q {
        assert(spec_key_display_name("q"@) =~= "Q"@);
        assert(key_of_label("Q"@) == Some(VK_Q));
    } else if code == VK_R {
        assert(spec_key_display_name("r"@) =~= "R"@);
        assert(key_of_label("R"@) == Some(VK_R));
    } else if code == VK_S {
        assert(spec_key_display_name("s"@) =~= "S"@);
        assert(key_of_label("S"@) == Some(VK_S));
    } else if code == VK_T {
        assert(spec_key_display_name("t"@) =~= "T"@);
        assert(key_of_label("T"@) == Some(VK_T));
    } else if code == VK_U {
        assert(spec_key_display_name("u"@) =~= "U"@);
        assert(key_of_label("U"@) == Some(VK_U));
    } else if code == VK_V {
        assert(spec_key_display_name("v"@) =~= "V"@);
        assert(key_of_label("V"@) == Some(VK_V));
    } else if code == VK_W {
        assert(spec_key_display_name("w"@) =~= "W"@);
        assert(key_of_label("W"@) == Some(VK_W));
    } else if code == VK_X {
        assert(spec_key_display_name("x"@) =~= "X"@);
        assert(key_of_label("X"@) == Some(VK_X));
    } else if code == VK_Y {
        assert(spec_key_display_name("y"@) =~= "Y"@);
        assert(key_of_label("Y"@) == Some(VK_Y));
    } else if code == VK_Z {
        assert(spec_key_display_name("z"@) =~= "Z"@);
        assert(key_of_label("Z"@) == Some(VK_Z));
    } else if code == VK_0 {
        assert(spec_key_display_name("0"@) =~= "0"@);
        assert(key_of_label("0"@) == Some(VK_0));
    } else if code == VK_1 {
        assert(spec_key_display_name("1"@) =~= "1"@);
        assert(key_of_label("1"@) == Some(VK_1));
    } else if code == VK_2 {
        assert(spec_key_display_name("2"@) =~= "2"@);
        assert(key_of_label("2"@) == Some(VK_2));
    } else if code == VK_3 {
        assert(spec_key_display_name("3"@) =~= "3"@);
        assert(key_of_label("3"@) == Some(VK_3));
    } else if code == VK_4 {
        assert(spec_key_display_name("4"@) =~= "4"@);
        assert(key_of_label("4"@) == Some(VK_4));
    } else if code == VK_5 {
        assert(spec_key_display_name("5"@) =~= "5"@);
        assert(key_of_label("5"@) == Some(VK_5));
    } else if code == VK_6 {
        assert(spec_key_display_name("6"@) =~= "6"@);
        assert(key_of_label("6"@) == Some(VK_6));
    } else if code == VK_7 {
        assert(spec_key_display_name("7"@) =~= "7"@);
        assert(key_of_label("7"@) == Some(VK_7));
    } else if code == VK_8 {
        assert(spec_key_display_name("8"@) =~= "8"@);
        assert(key_of_label("8"@) == Some(VK_8));
    } else if code == VK_9 {
        assert(spec_key_display_name("9"@) =~= "9"@);
        assert(key_of_label("9"@) == Some(VK_9));
    }
}

/// A key shortcut string is shown as the label of its key name.
proof fn lemma_key_shortcut_display(n: Seq<char>)
    ensures
        spec_shortcut_display("key:"@ + n) == spec_key_display_name(n),
{
    let s = "key:"@ + n;
    reveal_strlit("key:");
    reveal_strlit("mouse:");
    reveal_strlit("combo:");
    assert(s[0] == 'k');
    assert(s.subrange(0, 4) =~= "key:"@);
    assert(s.skip(4) =~= n);
    assert(!has_prefix(s, "mouse:"@)) by {
        if has_prefix(s, "mouse:"@) {
            assert(s.subrange(0, 6)[0] == 'm');
        }
    }
    assert(!has_prefix(s, "combo:"@)) by {
        if has_prefix(s, "combo:"@) {
            assert(s.subrange(0, 6)[0] == 'c');
        }
    }
}

/// Two different keys that have names are shown with different labels in
/// the settings, so no key shortcut is shown as another key's.
pub proof fn lemma_key_labels_tell_keys_apart(c1: u16, c2: u16)
    requires
        spec_key_name(c1) is Some,
        spec_key_name(c2) is Some,
        c1 != c2,
    ensures
        spec_shortcut_display("key:"@ + spec_key_name(c1)->0) != spec_shortcut_display(
            "key:"@ + spec_key_name(c2)->0,
        ),
{
    lemma_key_shortcut_display(spec_key_name(c1)->0);
    lemma_key_shortcut_display(spec_key_name(c2)->0);
    lemma_key_label_decodes(c1);
    lemma_key_label_decodes(c2);
}

/// A single piece gives its key code where it names a key, and nothing
/// otherwise.
pub proof fn lemma_combo_keys_of_one_piece(p: Seq<char>)
    ensures
        key_codes_of(seq![p]) == (match spec_key_code(p) {
            Some(k) => seq![k],
            None => Seq::<u16>::empty(),
        }),
{
    assert(seq![p].drop_last() =~= Seq::<Seq<char>>::empty());
    assert(key_codes_of(Seq::<Seq<char>>::empty()) == Seq::<u16>::empty());
    assert(key_codes_of(seq![p]) =~= (match spec_key_code(p) {
        Some(k) => seq![k],
        None => Seq::<u16>::empty(),
    }));
}

/// The keys of two runs of pieces joined are the keys of the first run
/// followed by those of the second: every piece that names a key adds its
/// code, in order, however many pieces there are.
pub proof fn lemma_combo_keys_of_joined_pieces(a: Seq<Seq<char>>, b: Seq<Seq<char>>)
    ensures
        key_codes_of(a + b) == key_codes_of(a) + key_codes_of(b),
    decreases b.len(),
{
    if b.len() == 0 {
        assert(a + b =~= a);
        assert(key_codes_of(b) == Seq::<u16>::empty());
        assert(key_codes_of(a) + key_codes_of(b) =~= key_codes_of(a));
    } else {
        lemma_combo_keys_of_joined_pieces(a, b.drop_last());
        assert((a + b).drop_last() =~= a + b.drop_last());
        assert((a + b).last() == b.last());
        assert(key_codes_of(a + b) =~= key_codes_of(a) + key_codes_of(b));
    }
}

/// A combination keeps one key per piece that names a key: its length is the
/// number of such pieces.
pub proof fn lemma_combo_keys_count(ps: Seq<Seq<char>>)
    ensures
        key_codes_of(ps).len() == ps.filter(|p: Seq<char>| spec_key_code(p) is Some).len(),
    decreases ps.len(),
{
    reveal_with_fuel(Seq::<_>::filter, 1);
    if ps.len() > 0 {
        lemma_combo_keys_count(ps.drop_last());
        lemma_combo_keys_of_joined_pieces(ps.drop_last(), seq![ps.last()]);
        lemma_combo_keys_of_one_piece(ps.last());
        assert(ps.drop_last() + seq![ps.last()] =~= ps);
    }
}

/// A string of the five mouse button shortcuts is shown as that button's
/// label.
proof fn lemma_mouse_shortcut_display(n: Seq<char>)
    ensures
        spec_shortcut_display("mouse:"@ + n) == spec_mouse_display(n),
{
    let s = "mouse:"@ + n;
    reveal_strlit("mouse:");
    assert(s.subrange(0, 6) =~= "mouse:"@);
    assert(s.skip(6) =~= n);
}

/// The five named mouse buttons are shown with five different labels, none
/// of them the bare button name.
pub proof fn lemma_button_labels_tell_buttons_apart(b1: u8, b2: u8)
    requires
        b1 < 5,
        b2 < 5,
    ensures
        b1 != b2 ==> spec_shortcut_display(spec_button_to_name(b1)) != spec_shortcut_display(
            spec_button_to_name(b2),
        ),
        spec_shortcut_display(spec_button_to_name(b1)) != spec_button_name(b1),
{
    lemma_mouse_shortcut_display(spec_button_name(b1));
    lemma_mouse_shortcut_display(spec_button_name(b2));
    reveal_strlit("left");
    reveal_strlit("right");
    reveal_strlit("middle");
    reveal_strlit("back");
    reveal_strlit("forward");
    reveal_strlit("Left Click");
    reveal_strlit("Right Click");
    reveal_strlit("Middle Click");
    reveal_strlit("Back Button");
    reveal_strlit("Forward Button");
    assert("left"@.len() == 4 && "back"@.len() == 4 && "left"@[0] != "back"@[0]);
    assert("right"@.len() == 5 && "middle"@.len() == 6 && "forward"@.len() == 7);
    assert("Left Click"@.len() == 10 && "Middle Click"@.len() == 12);
    assert("Right Click"@.len() == 11 && "Back Button"@.len() == 11);
    assert("Right Click"@[0] != "Back Button"@[0]);
    assert("Forward Button"@.len() == 14);
}

/// A piece with no separator in it splits into itself alone.
proof fn lemma_split_without_separator(s: Seq<char>, sep: char)
    requires
        !s.contains(sep),
    ensures
        split_on(s, sep) == seq![s],
    decreases s.len(),
{
    if s.len() == 0 {
        assert(s =~= Seq::<char>::empty());
        assert(split_on(s, sep) =~= seq![s]);
    } else {
        let init = s.drop_last();
        assert(!init.contains(sep)) by {
            if init.contains(sep) {
                let i = choose|i: int| 0 <= i < init.len() && init[i] == sep;
                assert(s[i] == sep);
            }
        }
        lemma_split_without_separator(init, sep);
        assert(s.last() != sep) by {
            assert(s[s.len() - 1] == s.last());
        }
        assert(init.push(s.last()) =~= s);
        assert(s.drop_last() == init);
        assert(split_on(s, sep) == split_on(init, sep).update(0, init.push(s.last())));
        assert(split_on(s, sep) =~= seq![s]);
    }
}

/// Splitting around one separator gives the pieces of each side, joined.
proof fn lemma_split_around_separator(x: Seq<char>, y: Seq<char>, sep: char)
    ensures
        split_on(x.push(sep) + y, sep) == split_on(x, sep) + split_on(y, sep),
    decreases y.len(),
{
    let s = x.push(sep) + y;
    lemma_split_on_nonempty(x, sep);
    if y.len() == 0 {
        assert(s =~= x.push(sep));
        assert(s.drop_last() =~= x);
        assert(split_on(s, sep) =~= split_on(x, sep) + split_on(y, sep));
    } else {
        let y0 = y.drop_last();
        lemma_split_around_separator(x, y0, sep);
        lemma_split_on_nonempty(y0, sep);
        assert(s.drop_last() =~= x.push(sep) + y0);
        assert(s.last() == y.last());
        assert(split_on(s, sep) =~= split_on(x, sep) + split_on(y, sep));
    }
}

/// A two-key combination is shown as the labels of its two keys, as key
/// shortcuts show them, with " + " between.
pub proof fn lemma_combo_display_joins_key_labels(a: Seq<char>, b: Seq<char>)
    requires
        !a.contains('+'),
        !b.contains('+'),
    ensures
        spec_shortcut_display("combo:"@ + a + "+"@ + b) == spec_shortcut_display("key:"@ + a)
            + " + "@ + spec_shortcut_display("key:"@ + b),
{
    reveal_strlit("combo:");
    reveal_strlit("mouse:");
    reveal_strlit("+");
    let s = "combo:"@ + a + "+"@ + b;
    let rest = a.push('+') + b;
    assert(s[0] == 'c');
    assert(s.subrange(0, 6) =~= "combo:"@);
    assert(s.skip(6) =~= rest);
    assert(!has_prefix(s, "mouse:"@)) by {
        if has_prefix(s, "mouse:"@) {
            assert(s.subrange(0, 6)[0] == 'm');
        }
    }
    lemma_split_around_separator(a, b, '+');
    lemma_split_without_separator(a, '+');
    lemma_split_without_separator(b, '+');
    let parts = split_on(rest, '+');
    assert(parts =~= seq![a, b]);
    let shown = parts.map_values(|n: Seq<char>| spec_key_display_name(n));
    assert(shown =~= seq![spec_key_display_name(a), spec_key_display_name(b)]);
    assert(shown.drop_last() =~= seq![spec_key_display_name(a)]);
    assert(join_with(shown.drop_last(), " + "@) == spec_key_display_name(a));
    lemma_key_shortcut_display(a);
    lemma_key_shortcut_display(b);
}

/// Two key names joined with '+' after "combo:" parse to the combination of
/// those two keys, in that order.
pub proof fn lemma_two_key_combo_parses(a: Seq<char>, b: Seq<char>)
    requires
        !a.contains('+'),
        !b.contains('+'),
        spec_key_code(a) is Some,
        spec_key_code(b) is Some,
    ensures
        spec_parse_shortcut("combo:"@ + a + "+"@ + b) == ShortcutModel::Combo(
            seq![spec_key_code(a)->0, spec_key_code(b)->0],
        ),
{
    reveal_strlit("combo:");
    reveal_strlit("mouse:");
    reveal_strlit("+");
    let s = "combo:"@ + a + "+"@ + b;
    let rest = a.push('+') + b;
    assert(s[0] == 'c');
    assert(s.subrange(0, 6) =~= "combo:"@);
    assert(s.skip(6) =~= rest);
    assert(!has_prefix(s, "mouse:"@)) by {
        if has_prefix(s, "mouse:"@) {
            assert(s.subrange(0, 6)[0] == 'm');
        }
    }
    lemma_split_around_separator(a, b, '+');
    lemma_split_without_separator(a, '+');
    lemma_split_without_separator(b, '+');
    assert(split_on(rest, '+') =~= seq![a] + seq![b]);
    lemma_combo_keys_of_joined_pieces(seq![a], seq![b]);
    lemma_combo_keys_of_one_piece(a);
    lemma_combo_keys_of_one_piece(b);
    assert(key_codes_of(split_on(rest, '+')) =~= seq![spec_key_code(a)->0, spec_key_code(b)->0]);
}

} // verus!
