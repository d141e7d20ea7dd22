use openbolo::grab::{
    handle_tap_event, keys_match_combo, process_button_press, process_button_release,
    process_key_press, process_key_release, GrabState, TapEvent, EVENT_FLAGS_CHANGED,
    EVENT_KEY_DOWN, EVENT_KEY_UP, EVENT_LEFT_MOUSE_DOWN, EVENT_LEFT_MOUSE_UP,
    EVENT_OTHER_MOUSE_DOWN, EVENT_OTHER_MOUSE_UP, EVENT_RIGHT_MOUSE_DOWN,
    EVENT_TAP_DISABLED_BY_TIMEOUT, TAP_EVENT_MASK,
};
use openbolo::keys::{FLAG_OPTION, FLAG_SHIFT};
use openbolo::shortcut::{parse_shortcut, ParsedShortcut, ShortcutConfig, ShortcutEvent};
use std::collections::HashSet;

fn ev(event_type: u32, keycode: u16) -> TapEvent {
    TapEvent { event_type, keycode, flags: 0, button: 0 }
}

fn flags_ev(keycode: u16, flags: u64) -> TapEvent {
    TapEvent { event_type: EVENT_FLAGS_CHANGED, keycode, flags, button: 0 }
}

fn mouse(event_type: u32, button: u8) -> TapEvent {
    TapEvent { event_type, keycode: 0, flags: 0, button }
}

fn config(hold: &str, toggle: &str, paste: &str) -> ShortcutConfig {
    ShortcutConfig {
        hold: parse_shortcut(hold),
        toggle: parse_shortcut(toggle),
        paste: parse_shortcut(paste),
    }
}

#[test]
fn event_mask_covers_the_nine_event_types() {
    let expected: u64 = (1 << 10) | (1 << 11) | (1 << 12) | (1 << 1) | (1 << 2) | (1 << 3)
        | (1 << 4) | (1 << 25) | (1 << 26);
    assert_eq!(TAP_EVENT_MASK, expected);
}

#[test]
fn hold_single_key_press_then_release() {
    let cfg = config("key:F5", "", "");
    let mut st = GrabState::new();
    let r = handle_tap_event(&mut st, &cfg, true, false, ev(EVENT_KEY_DOWN, 0x60));
    assert_eq!(r.events, vec![ShortcutEvent::HoldPress]);
    assert!(r.suppress);
    assert!(st.pressed.contains(&0x60));
    let r = handle_tap_event(&mut st, &cfg, true, false, ev(EVENT_KEY_UP, 0x60));
    assert_eq!(r.events, vec![ShortcutEvent::HoldRelease]);
    assert!(r.suppress);
    assert!(st.pressed.is_empty());
}

#[test]
fn hold_modifier_through_flag_changes() {
    let cfg = config("key:Alt_R", "", "");
    let mut st = GrabState::new();
    let r = handle_tap_event(&mut st, &cfg, true, false, flags_ev(0x3D, FLAG_OPTION));
    assert_eq!(r.events, vec![ShortcutEvent::HoldPress]);
    assert!(r.suppress);
    // the flag stays set while another key changes flags: nothing new
    let r = handle_tap_event(&mut st, &cfg, true, false, flags_ev(0x3D, FLAG_OPTION | FLAG_SHIFT));
    assert!(r.events.is_empty());
    assert!(!r.suppress);
    let r = handle_tap_event(&mut st, &cfg, true, false, flags_ev(0x3D, 0));
    assert_eq!(r.events, vec![ShortcutEvent::HoldRelease]);
    assert!(r.suppress);
    assert!(st.pressed.is_empty());
}

#[test]
fn flag_change_of_a_non_modifier_passes() {
    let cfg = config("key:a", "", "");
    let mut st = GrabState::new();
    let r = handle_tap_event(&mut st, &cfg, true, false, flags_ev(0x00, FLAG_OPTION));
    assert!(r.events.is_empty());
    assert!(!r.suppress);
    assert!(st.pressed.is_empty());
}

#[test]
fn auto_repeat_is_ignored() {
    let cfg = config("key:space", "", "");
    let mut st = GrabState::new();
    handle_tap_event(&mut st, &cfg, true, false, ev(EVENT_KEY_DOWN, 0x31));
    let r = handle_tap_event(&mut st, &cfg, true, false, ev(EVENT_KEY_DOWN, 0x31));
    assert!(r.events.is_empty());
    assert!(!r.suppress);
}

#[test]
fn toggle_key_reports_on_press_only() {
    let cfg = config("", "key:F9", "");
    let mut st = GrabState::new();
    let r = handle_tap_event(&mut st, &cfg, true, false, ev(EVENT_KEY_DOWN, 0x65));
    assert_eq!(r.events, vec![ShortcutEvent::TogglePress]);
    assert!(r.suppress);
    let r = handle_tap_event(&mut st, &cfg, true, false, ev(EVENT_KEY_UP, 0x65));
    assert!(r.events.is_empty());
    assert!(!r.suppress);
}

#[test]
fn paste_key_fires_on_release_once() {
    let cfg = config("", "", "key:v");
    let mut st = GrabState::new();
    let r = handle_tap_event(&mut st, &cfg, true, false, ev(EVENT_KEY_DOWN, 0x09));
    assert!(r.events.is_empty());
    assert!(r.suppress);
    assert!(st.paste_pending);
    let r = handle_tap_event(&mut st, &cfg, true, false, ev(EVENT_KEY_UP, 0x09));
    assert_eq!(r.events, vec![ShortcutEvent::PastePress]);
    assert!(r.suppress);
    assert!(!st.paste_pending);
    let r = handle_tap_event(&mut st, &cfg, true, false, ev(EVENT_KEY_UP, 0x09));
    assert!(r.events.is_empty());
    assert!(!r.suppress);
}

#[test]
fn hold_combo_fires_once_and_breaks_on_release() {
    let cfg = config("combo:Control_L+space", "", "");
    let mut st = GrabState::new();
    // Control arrives as a flag change; the combination is not complete yet
    let r = handle_tap_event(&mut st, &cfg, true, false, flags_ev(0x3B, 0x00040000));
    assert!(r.events.is_empty());
    assert!(!r.suppress);
    let r = handle_tap_event(&mut st, &cfg, true, false, ev(EVENT_KEY_DOWN, 0x31));
    assert_eq!(r.events, vec![ShortcutEvent::HoldPress]);
    assert!(r.suppress);
    assert!(st.combo_hold_active);
    // another key while active: no second HoldPress
    let r = handle_tap_event(&mut st, &cfg, true, false, ev(EVENT_KEY_DOWN, 0x00));
    assert!(r.events.is_empty());
    let r = handle_tap_event(&mut st, &cfg, true, false, ev(EVENT_KEY_UP, 0x00));
    assert!(r.events.is_empty());
    let r = handle_tap_event(&mut st, &cfg, true, false, ev(EVENT_KEY_UP, 0x31));
    assert_eq!(r.events, vec![ShortcutEvent::HoldRelease]);
    assert!(!r.suppress);
    assert!(!st.combo_hold_active);
}

#[test]
fn combo_completed_by_a_modifier_is_not_swallowed() {
    let cfg = config("", "combo:d+Shift_L", "");
    let mut st = GrabState::new();
    handle_tap_event(&mut st, &cfg, true, false, ev(EVENT_KEY_DOWN, 0x02));
    let r = handle_tap_event(&mut st, &cfg, true, false, flags_ev(0x38, FLAG_SHIFT));
    assert_eq!(r.events, vec![ShortcutEvent::TogglePress]);
    assert!(!r.suppress);
    assert!(st.combo_toggle_active);
    let r = handle_tap_event(&mut st, &cfg, true, false, flags_ev(0x38, 0));
    assert!(r.events.is_empty());
    assert!(!st.combo_toggle_active);
}

#[test]
fn paste_combo_pastes_when_broken() {
    let cfg = config("", "", "combo:Super_L+Shift_L+v");
    let mut st = GrabState::new();
    handle_tap_event(&mut st, &cfg, true, false, flags_ev(0x37, 0x00100000));
    handle_tap_event(&mut st, &cfg, true, false, flags_ev(0x38, 0x00100000 | FLAG_SHIFT));
    let r = handle_tap_event(&mut st, &cfg, true, false, ev(EVENT_KEY_DOWN, 0x09));
    assert!(r.events.is_empty());
    assert!(r.suppress);
    assert!(st.paste_pending && st.combo_paste_active);
    let r = handle_tap_event(&mut st, &cfg, true, false, ev(EVENT_KEY_UP, 0x09));
    assert_eq!(r.events, vec![ShortcutEvent::PastePress]);
    assert!(!r.suppress);
    assert!(!st.paste_pending && !st.combo_paste_active);
}

#[test]
fn mouse_button_shortcuts() {
    let cfg = config("mouse:back", "mouse:forward", "mouse:middle");
    let mut st = GrabState::new();
    let r = handle_tap_event(&mut st, &cfg, true, false, mouse(EVENT_OTHER_MOUSE_DOWN, 3));
    assert_eq!(r.events, vec![ShortcutEvent::HoldPress]);
    assert!(r.suppress);
    let r = handle_tap_event(&mut st, &cfg, true, false, mouse(EVENT_OTHER_MOUSE_UP, 3));
    assert_eq!(r.events, vec![ShortcutEvent::HoldRelease]);
    let r = handle_tap_event(&mut st, &cfg, true, false, mouse(EVENT_OTHER_MOUSE_DOWN, 4));
    assert_eq!(r.events, vec![ShortcutEvent::TogglePress]);
    let r = handle_tap_event(&mut st, &cfg, true, false, mouse(EVENT_OTHER_MOUSE_DOWN, 2));
    assert!(r.events.is_empty());
    assert!(r.suppress);
    let r = handle_tap_event(&mut st, &cfg, true, false, mouse(EVENT_OTHER_MOUSE_UP, 2));
    assert_eq!(r.events, vec![ShortcutEvent::PastePress]);
    // the left button is not a shortcut here and passes
    let r = handle_tap_event(&mut st, &cfg, true, false, mouse(EVENT_LEFT_MOUSE_DOWN, 9));
    assert!(r.events.is_empty());
    assert!(!r.suppress);
}

#[test]
fn left_and_right_buttons_ignore_the_button_field() {
    let cfg = config("mouse:left", "", "");
    let mut st = GrabState::new();
    let r = handle_tap_event(&mut st, &cfg, true, false, mouse(EVENT_LEFT_MOUSE_DOWN, 7));
    assert_eq!(r.events, vec![ShortcutEvent::HoldPress]);
    let r = handle_tap_event(&mut st, &cfg, true, false, mouse(EVENT_LEFT_MOUSE_UP, 7));
    assert_eq!(r.events, vec![ShortcutEvent::HoldRelease]);
}

#[test]
fn capture_mode_captures_mouse_buttons() {
    let cfg = config("key:F5", "", "");
    let mut st = GrabState::new();
    let r = handle_tap_event(&mut st, &cfg, true, true, mouse(EVENT_RIGHT_MOUSE_DOWN, 0));
    assert_eq!(r.captured, Some("mouse:right".to_string()));
    assert!(r.suppress);
    assert!(r.events.is_empty());
    let r = handle_tap_event(&mut st, &cfg, true, true, mouse(EVENT_OTHER_MOUSE_DOWN, 4));
    assert_eq!(r.captured, Some("mouse:forward".to_string()));
    let captured = r.captured.unwrap();
    assert_eq!(parse_shortcut(&captured), ParsedShortcut::MouseButton(4));
    // keys pass through untouched in capture mode
    let r = handle_tap_event(&mut st, &cfg, true, true, ev(EVENT_KEY_DOWN, 0x60));
    assert_eq!(r.captured, None);
    assert!(r.events.is_empty());
    assert!(!r.suppress);
    assert!(st.pressed.is_empty());
}

#[test]
fn timeout_reenables_the_tap() {
    let cfg = config("key:F5", "", "");
    let mut st = GrabState::new();
    let r = handle_tap_event(&mut st, &cfg, true, true, ev(EVENT_TAP_DISABLED_BY_TIMEOUT, 0x60));
    assert!(r.reenable_tap);
    assert!(!r.suppress);
    assert!(r.events.is_empty());
    assert_eq!(r.captured, None);
}

#[test]
fn disabled_grabber_only_forgets_released_keys() {
    let cfg = config("key:F5", "", "");
    let mut st = GrabState::new();
    handle_tap_event(&mut st, &cfg, true, false, ev(EVENT_KEY_DOWN, 0x60));
    handle_tap_event(&mut st, &cfg, true, false, flags_ev(0x3D, FLAG_OPTION));
    let r = handle_tap_event(&mut st, &cfg, false, false, ev(EVENT_KEY_DOWN, 0x00));
    assert!(r.events.is_empty() && !r.suppress);
    assert!(!st.pressed.contains(&0x00));
    let r = handle_tap_event(&mut st, &cfg, false, false, ev(EVENT_KEY_UP, 0x60));
    assert!(r.events.is_empty() && !r.suppress);
    assert!(!st.pressed.contains(&0x60));
    let r = handle_tap_event(&mut st, &cfg, false, false, flags_ev(0x3D, FLAG_OPTION));
    assert!(r.events.is_empty() && !r.suppress);
    assert!(st.pressed.is_empty());
}

#[test]
fn key_press_and_release_reactions() {
    let cfg = config("key:a", "key:a", "key:a");
    let mut st = GrabState::new();
    st.pressed.insert(0x00);
    let mut events = Vec::new();
    assert!(process_key_press(&mut st, &cfg, 0x00, &mut events));
    assert_eq!(events, vec![ShortcutEvent::HoldPress, ShortcutEvent::TogglePress]);
    assert!(st.paste_pending);
    st.pressed.remove(&0x00);
    let mut events = Vec::new();
    assert!(process_key_release(&mut st, &cfg, 0x00, &mut events));
    assert_eq!(events, vec![ShortcutEvent::HoldRelease, ShortcutEvent::PastePress]);
    assert!(!st.paste_pending);
}

#[test]
fn button_press_and_release_reactions() {
    let cfg = config("mouse:middle", "mouse:middle", "mouse:back");
    let mut st = GrabState::new();
    let mut events = vec![ShortcutEvent::PastePress];
    assert!(process_button_press(&mut st, &cfg, 2, &mut events));
    assert_eq!(
        events,
        vec![ShortcutEvent::PastePress, ShortcutEvent::HoldPress, ShortcutEvent::TogglePress]
    );
    let mut events = Vec::new();
    assert!(!process_button_release(&mut st, &cfg, 3, &mut events));
    assert!(events.is_empty());
    assert!(process_button_press(&mut st, &cfg, 3, &mut events));
    assert!(st.paste_pending);
    assert!(process_button_release(&mut st, &cfg, 3, &mut events));
    assert_eq!(events, vec![ShortcutEvent::PastePress]);
}

#[test]
fn combo_matching() {
    let mut pressed = HashSet::new();
    pressed.insert(0x3B);
    pressed.insert(0x31);
    assert!(keys_match_combo(&pressed, &[0x3B, 0x31]));
    assert!(keys_match_combo(&pressed, &[]));
    assert!(!keys_match_combo(&pressed, &[0x3B, 0x31, 0x00]));
}

#[test]
fn hold_combo_events_alternate_over_a_run() {
    let cfg = config("combo:Control_L+space", "key:F9", "combo:Control_L+v");
    let mut st = GrabState::new();
    let run = [
        flags_ev(0x3B, 0x00040000),
        ev(EVENT_KEY_DOWN, 0x31),
        ev(EVENT_KEY_DOWN, 0x09),
        ev(EVENT_KEY_DOWN, 0x65),
        ev(EVENT_KEY_UP, 0x09),
        ev(EVENT_KEY_UP, 0x31),
        ev(EVENT_KEY_DOWN, 0x31),
        ev(EVENT_KEY_UP, 0x31),
        flags_ev(0x3B, 0),
        ev(EVENT_KEY_DOWN, 0x31),
        mouse(EVENT_LEFT_MOUSE_DOWN, 0),
    ];
    let mut hold = Vec::new();
    for e in run {
        let r = handle_tap_event(&mut st, &cfg, true, false, e);
        for x in r.events {
            if x == ShortcutEvent::HoldPress || x == ShortcutEvent::HoldRelease {
                hold.push(x);
            }
        }
        let presses = hold.iter().filter(|x| **x == ShortcutEvent::HoldPress).count();
        let releases = hold.len() - presses;
        assert_eq!(st.combo_hold_active, presses > releases);
    }
    assert_eq!(
        hold,
        vec![
            ShortcutEvent::HoldPress,
            ShortcutEvent::HoldRelease,
            ShortcutEvent::HoldPress,
            ShortcutEvent::HoldRelease,
        ]
    );
}
