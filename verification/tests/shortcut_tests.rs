use openbolo::keys::{
    button_code_from_name, button_name_from_code, is_modifier, key_code_from_name,
    key_name_from_code, modifier_flag_for_keycode, FLAG_COMMAND, FLAG_CONTROL, FLAG_OPTION,
    FLAG_SHIFT,
};
use openbolo::shortcut::{
    button_to_name, key_display_name, parse_shortcut, shortcut_display, ParsedShortcut,
    ShortcutConfig,
};

#[test]
fn parse_empty_is_unset() {
    assert_eq!(parse_shortcut(""), ParsedShortcut::Unset);
}

#[test]
fn parse_single_named_keys() {
    assert_eq!(parse_shortcut("key:Alt_R"), ParsedShortcut::SingleKey(0x3D));
    assert_eq!(parse_shortcut("key:Alt_L"), ParsedShortcut::SingleKey(0x3A));
    assert_eq!(parse_shortcut("key:Control_R"), ParsedShortcut::SingleKey(0x3E));
    assert_eq!(parse_shortcut("key:Super_L"), ParsedShortcut::SingleKey(0x37));
    assert_eq!(parse_shortcut("key:BackSpace"), ParsedShortcut::SingleKey(0x33));
    assert_eq!(parse_shortcut("key:Delete"), ParsedShortcut::SingleKey(0x75));
    assert_eq!(parse_shortcut("key:F1"), ParsedShortcut::SingleKey(0x7A));
    assert_eq!(parse_shortcut("key:F12"), ParsedShortcut::SingleKey(0x6F));
    assert_eq!(parse_shortcut("key:space"), ParsedShortcut::SingleKey(0x31));
}

#[test]
fn parse_single_letters_and_digits_in_either_case() {
    assert_eq!(parse_shortcut("key:a"), ParsedShortcut::SingleKey(0x00));
    assert_eq!(parse_shortcut("key:A"), ParsedShortcut::SingleKey(0x00));
    assert_eq!(parse_shortcut("key:Z"), ParsedShortcut::SingleKey(0x06));
    assert_eq!(parse_shortcut("key:0"), ParsedShortcut::SingleKey(0x1D));
    assert_eq!(parse_shortcut("key:9"), ParsedShortcut::SingleKey(0x19));
}

#[test]
fn parse_unknown_keys_is_unset() {
    assert_eq!(parse_shortcut("key:"), ParsedShortcut::Unset);
    assert_eq!(parse_shortcut("key:Hyper"), ParsedShortcut::Unset);
    assert_eq!(parse_shortcut("key:-"), ParsedShortcut::Unset);
    assert_eq!(parse_shortcut("key:\u{e9}"), ParsedShortcut::Unset);
    assert_eq!(parse_shortcut("key:alt_r"), ParsedShortcut::Unset);
    assert_eq!(parse_shortcut("Alt_R"), ParsedShortcut::Unset);
    assert_eq!(parse_shortcut("keys:a"), ParsedShortcut::Unset);
}

#[test]
fn parse_mouse_buttons() {
    assert_eq!(parse_shortcut("mouse:left"), ParsedShortcut::MouseButton(0));
    assert_eq!(parse_shortcut("mouse:right"), ParsedShortcut::MouseButton(1));
    assert_eq!(parse_shortcut("mouse:middle"), ParsedShortcut::MouseButton(2));
    assert_eq!(parse_shortcut("mouse:back"), ParsedShortcut::MouseButton(3));
    assert_eq!(parse_shortcut("mouse:forward"), ParsedShortcut::MouseButton(4));
    assert_eq!(parse_shortcut("mouse:unknown"), ParsedShortcut::Unset);
    assert_eq!(parse_shortcut("mouse:"), ParsedShortcut::Unset);
}

#[test]
fn parse_combos() {
    assert_eq!(
        parse_shortcut("combo:Control_L+space"),
        ParsedShortcut::Combo(vec![0x3B, 0x31])
    );
    assert_eq!(
        parse_shortcut("combo:Super_L+Shift_L+d"),
        ParsedShortcut::Combo(vec![0x37, 0x38, 0x02])
    );
    // names that are not keys are skipped
    assert_eq!(
        parse_shortcut("combo:Control_L+bogus+a"),
        ParsedShortcut::Combo(vec![0x3B, 0x00])
    );
    // fewer than two keys is no combination
    assert_eq!(parse_shortcut("combo:Control_L+bogus"), ParsedShortcut::Unset);
    assert_eq!(parse_shortcut("combo:a"), ParsedShortcut::Unset);
    assert_eq!(parse_shortcut("combo:"), ParsedShortcut::Unset);
    assert_eq!(
        parse_shortcut("combo:+a++b+"),
        ParsedShortcut::Combo(vec![0x00, 0x0B])
    );
}

#[test]
fn button_names_are_shortcut_strings() {
    assert_eq!(button_to_name(0), "mouse:left");
    assert_eq!(button_to_name(3), "mouse:back");
    assert_eq!(button_to_name(4), "mouse:forward");
    assert_eq!(button_to_name(7), "mouse:unknown");
}

#[test]
fn captured_buttons_parse_back() {
    for b in 0u8..=255 {
        let parsed = parse_shortcut(&button_to_name(b));
        if b < 5 {
            assert_eq!(parsed, ParsedShortcut::MouseButton(b));
        } else {
            assert_eq!(parsed, ParsedShortcut::Unset);
        }
    }
}

#[test]
fn key_names_round_trip() {
    let mut named = 0;
    for code in 0u16..=0xFF {
        if let Some(name) = key_name_from_code(code) {
            named += 1;
            assert_eq!(key_code_from_name(name), Some(code));
            let stored = format!("key:{}", name);
            assert_eq!(parse_shortcut(&stored), ParsedShortcut::SingleKey(code));
        }
    }
    assert_eq!(named, 63);
    assert_eq!(key_name_from_code(0x3D), Some("Alt_R"));
    assert_eq!(key_name_from_code(0x0A), None);
    assert_eq!(key_name_from_code(0xFFFF), None);
}

#[test]
fn key_code_lookup() {
    assert_eq!(key_code_from_name("Caps_Lock"), Some(0x39));
    assert_eq!(key_code_from_name("Tab"), Some(0x30));
    assert_eq!(key_code_from_name("m"), Some(0x2E));
    assert_eq!(key_code_from_name("M"), Some(0x2E));
    assert_eq!(key_code_from_name(""), None);
    assert_eq!(key_code_from_name("ab"), None);
}

#[test]
fn modifiers_and_their_flags() {
    for code in [0x3A, 0x3D] {
        assert!(is_modifier(code));
        assert_eq!(modifier_flag_for_keycode(code), FLAG_OPTION);
    }
    for code in [0x38, 0x3C] {
        assert!(is_modifier(code));
        assert_eq!(modifier_flag_for_keycode(code), FLAG_SHIFT);
    }
    for code in [0x3B, 0x3E] {
        assert!(is_modifier(code));
        assert_eq!(modifier_flag_for_keycode(code), FLAG_CONTROL);
    }
    for code in [0x37, 0x36] {
        assert!(is_modifier(code));
        assert_eq!(modifier_flag_for_keycode(code), FLAG_COMMAND);
    }
    for code in 0u16..=0x200 {
        assert_eq!(is_modifier(code), modifier_flag_for_keycode(code) != 0);
    }
    assert!(!is_modifier(0x39));
    assert_eq!(modifier_flag_for_keycode(0x31), 0);
}

#[test]
fn button_lookup() {
    assert_eq!(button_code_from_name("middle"), Some(2));
    assert_eq!(button_code_from_name("Middle"), None);
    assert_eq!(button_name_from_code(1), "right");
    assert_eq!(button_name_from_code(200), "unknown");
}

#[test]
fn display_of_shortcut_strings() {
    assert_eq!(shortcut_display(""), "Not set");
    assert_eq!(shortcut_display("mouse:left"), "Left Click");
    assert_eq!(shortcut_display("mouse:right"), "Right Click");
    assert_eq!(shortcut_display("mouse:middle"), "Middle Click");
    assert_eq!(shortcut_display("mouse:back"), "Back Button");
    assert_eq!(shortcut_display("mouse:forward"), "Forward Button");
    assert_eq!(shortcut_display("mouse:thumb"), "thumb");
    assert_eq!(shortcut_display("key:Alt_R"), "Right Option \u{2325}");
    assert_eq!(shortcut_display("key:a"), "A");
    assert_eq!(shortcut_display("key:7"), "7");
    assert_eq!(shortcut_display("key:F5"), "F5");
    assert_eq!(
        shortcut_display("combo:Control_L+space"),
        "Left Control \u{2303} + Space"
    );
    assert_eq!(
        shortcut_display("combo:Super_L+Shift_R+k"),
        "Left Command \u{2318} + Right Shift \u{21e7} + K"
    );
    assert_eq!(shortcut_display("combo:"), "");
    assert_eq!(shortcut_display("combo:a+"), "A + ");
    assert_eq!(shortcut_display("whatever"), "whatever");
}

#[test]
fn display_of_key_names() {
    assert_eq!(key_display_name("Alt_L"), "Left Option \u{2325}");
    assert_eq!(key_display_name("Shift_L"), "Left Shift \u{21e7}");
    assert_eq!(key_display_name("Control_R"), "Right Control \u{2303}");
    assert_eq!(key_display_name("Super_R"), "Right Command \u{2318}");
    assert_eq!(key_display_name("Return"), "Return \u{21a9}");
    assert_eq!(key_display_name("Escape"), "Esc");
    assert_eq!(key_display_name("BackSpace"), "Delete \u{232b}");
    assert_eq!(key_display_name("Tab"), "Tab \u{21e5}");
    assert_eq!(key_display_name("q"), "Q");
    assert_eq!(key_display_name("Q"), "Q");
    assert_eq!(key_display_name("\u{e9}"), "\u{e9}");
    assert_eq!(key_display_name("Caps_Lock"), "Caps_Lock");
}

#[test]
fn default_config_has_no_shortcuts() {
    let c = ShortcutConfig::default();
    assert_eq!(c.hold, ParsedShortcut::Unset);
    assert_eq!(c.toggle, ParsedShortcut::Unset);
    assert_eq!(c.paste, ParsedShortcut::Unset);
    assert_eq!(ParsedShortcut::default(), ParsedShortcut::Unset);
    let d = c.clone();
    assert_eq!(d, c);
}
