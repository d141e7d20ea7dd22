//! The decisions of the global key and mouse grabber: for each input event
//! that the system's event tap delivers, which shortcut events to report,
//! whether to swallow the input, and how the set of held keys changes.
use vstd::prelude::*;
use std::collections::HashSet;

use crate::keys::{is_modifier, modifier_flag_for_keycode, spec_is_modifier, spec_modifier_flag};
use crate::shortcut::{
    button_to_name, spec_button_to_name, ConfigModel, ParsedShortcut, ShortcutConfig, ShortcutEvent,
    ShortcutModel,
};

verus! {

broadcast use vstd::std_specs::hash::group_hash_axioms;

/// Event type of a key going down.
pub const EVENT_KEY_DOWN: u32 = 10;
/// Event type of a key going up.
pub const EVENT_KEY_UP: u32 = 11;
/// Event type of a change of the modifier flags.
pub const EVENT_FLAGS_CHANGED: u32 = 12;
/// Event type of the left mouse button going down.
pub const EVENT_LEFT_MOUSE_DOWN: u32 = 1;
/// Event type of the left mouse button going up.
pub const EVENT_LEFT_MOUSE_UP: u32 = 2;
/// Event type of the right mouse button going down.
pub const EVENT_RIGHT_MOUSE_DOWN: u32 = 3;
/// Event type of the right mouse button going up.
pub const EVENT_RIGHT_MOUSE_UP: u32 = 4;
/// Event type of another mouse button going down.
pub const EVENT_OTHER_MOUSE_DOWN: u32 = 25;
/// Event type of another mouse button going up.
pub const EVENT_OTHER_MOUSE_UP: u32 = 26;
/// Event type by which the system reports that it disabled the tap for taking too long.
pub const EVENT_TAP_DISABLED_BY_TIMEOUT: u32 = 0xFFFFFFFE;

/// The event types that the tap listens to, one bit per type.
pub const TAP_EVENT_MASK: u64 = (1u64 << 10u64) | (1u64 << 11u64) | (1u64 << 12u64) | (1u64 << 1u64)
    | (1u64 << 2u64) | (1u64 << 3u64) | (1u64 << 4u64) | (1u64 << 25u64) | (1u64 << 26u64);

/// What the grabber remembers between events.
pub struct GrabState {
    /// The keys held down, as far as the grabber has seen.
    pub pressed: HashSet<u16>,
    /// The hold combination has fired and not yet been broken.
    pub combo_hold_active: bool,
    /// The toggle combination has fired and not yet been broken.
    pub combo_toggle_active: bool,
    /// The paste combination has fired and not yet been broken.
    pub combo_paste_active: bool,
    /// The paste shortcut went down and its release will paste.
    pub paste_pending: bool,
}

/// The value of a [`GrabState`].
pub struct GrabModel {
    pub pressed: Set<u16>,
    pub combo_hold_active: bool,
    pub combo_toggle_active: bool,
    pub combo_paste_active: bool,
    pub paste_pending: bool,
}

impl View for GrabState {
    type V = GrabModel;

    open spec fn view(&self) -> GrabModel {
        GrabModel {
            pressed: self.pressed@,
            combo_hold_active: self.combo_hold_active,
            combo_toggle_active: self.combo_toggle_active,
            combo_paste_active: self.combo_paste_active,
            paste_pending: self.paste_pending,
        }
    }
}

/// The state before any event: nothing held, nothing active or pending.
pub open spec fn initial_grab() -> GrabModel {
    GrabModel {
        pressed: Set::<u16>::empty(),
        combo_hold_active: false,
        combo_toggle_active: false,
        combo_paste_active: false,
        paste_pending: false,
    }
}

impl GrabState {
    /// The state before any event.
    pub fn new() -> (r: Self)
        ensures
            r@ == initial_grab(),
    {
        GrabState {
            pressed: HashSet::new(),
            combo_hold_active: false,
            combo_toggle_active: false,
            combo_paste_active: false,
            paste_pending: false,
        }
    }
}

/// One input event as the tap delivers it, its fields read out.
#[derive(Debug, Clone, Copy, PartialEq, Eq, Structural)]
pub struct TapEvent {
    pub event_type: u32,
    /// The key code field of the event.
    pub keycode: u16,
    /// The modifier flags of the event.
    pub flags: u64,
    /// The mouse button number field of the event.
    pub button: u8,
}

/// What the grabber answers to one event.
pub struct TapResponse {
    /// Swallow the event: no other application sees it.
    pub suppress: bool,
    /// Enable the tap again.
    pub reenable_tap: bool,
    /// The shortcut events to report, in order.
    pub events: Vec<ShortcutEvent>,
    /// In capture mode, the shortcut string of the mouse button that went down.
    pub captured: Option<String>,
}

/// The value of a [`TapResponse`], with the state after the event.
pub struct TapOutcome {
    pub state: GrabModel,
    pub suppress: bool,
    pub reenable_tap: bool,
    pub events: Seq<ShortcutEvent>,
    pub captured: Option<Seq<char>>,
}

/// The state after a key press or release, the events it reports and
/// whether it is swallowed.
pub struct Reaction {
    pub state: GrabModel,
    pub events: Seq<ShortcutEvent>,
    pub suppress: bool,
}

/// Every key of the combination is held.
pub open spec fn combo_held(pressed: Set<u16>, combo: Seq<u16>) -> bool {
    forall|i: int| 0 <= i < combo.len() ==> pressed.contains(#[trigger] combo[i])
}

/// The shortcut is the single key `k`.
pub open spec fn is_key(s: ShortcutModel, k: u16) -> bool {
    s == ShortcutModel::SingleKey(k)
}

/// The shortcut is the mouse button `b`.
pub open spec fn is_button(s: ShortcutModel, b: u8) -> bool {
    s == ShortcutModel::MouseButton(b)
}

/// The shortcut is a combination that is not active and whose keys are all held.
pub open spec fn combo_fires(s: ShortcutModel, active: bool, pressed: Set<u16>) -> bool {
    !active && (s matches ShortcutModel::Combo(c) && combo_held(pressed, c))
}

/// The shortcut is an active combination one of whose keys is no longer held.
pub open spec fn combo_breaks(s: ShortcutModel, active: bool, pressed: Set<u16>) -> bool {
    active && (s matches ShortcutModel::Combo(c) && !combo_held(pressed, c))
}

/// The event alone where `b` holds, else no event.
pub open spec fn event_if(b: bool, e: ShortcutEvent) -> Seq<ShortcutEvent> {
    if b {
        seq![e]
    } else {
        Seq::<ShortcutEvent>::empty()
    }
}

/// A key `k` went down; `g.pressed` holds it already. Single-key shortcuts on
/// `k` fire and swallow it; a combination fires once when its keys are all
/// held, and swallows `k` unless `k` is a modifier. Hold reports HoldPress,
/// toggle TogglePress; paste only becomes pending.
pub open spec fn spec_key_press(g: GrabModel, c: ConfigModel, k: u16) -> Reaction {
    let hold_fires = combo_fires(c.hold, g.combo_hold_active, g.pressed);
    let toggle_fires = combo_fires(c.toggle, g.combo_toggle_active, g.pressed);
    let paste_fires = combo_fires(c.paste, g.combo_paste_active, g.pressed);
    Reaction {
        state: GrabModel {
            pressed: g.pressed,
            combo_hold_active: g.combo_hold_active || hold_fires,
            combo_toggle_active: g.combo_toggle_active || toggle_fires,
            combo_paste_active: g.combo_paste_active || paste_fires,
            paste_pending: g.paste_pending || is_key(c.paste, k) || paste_fires,
        },
        events: event_if(is_key(c.hold, k), ShortcutEvent::HoldPress) + event_if(
            is_key(c.toggle, k),
            ShortcutEvent::TogglePress,
        ) + event_if(hold_fires, ShortcutEvent::HoldPress) + event_if(
            toggle_fires,
            ShortcutEvent::TogglePress,
        ),
        suppress: is_key(c.hold, k) || is_key(c.toggle, k) || is_key(c.paste, k) || ((hold_fires
            || toggle_fires || paste_fires) && !spec_is_modifier(k)),
    }
}

/// A key `k` went up; `g.pressed` no longer holds it. The single hold key
/// reports HoldRelease, the single paste key pastes where a paste is pending;
/// both swallow `k`. A combination that breaks becomes inactive: hold reports
/// HoldRelease, paste pastes where a paste is still pending.
pub open spec fn spec_key_release(g: GrabModel, c: ConfigModel, k: u16) -> Reaction {
    let key_pastes = is_key(c.paste, k) && g.paste_pending;
    let pending = g.paste_pending && !key_pastes;
    let hold_breaks = combo_breaks(c.hold, g.combo_hold_active, g.pressed);
    let toggle_breaks = combo_breaks(c.toggle, g.combo_toggle_active, g.pressed);
    let paste_breaks = combo_breaks(c.paste, g.combo_paste_active, g.pressed);
    Reaction {
        state: GrabModel {
            pressed: g.pressed,
            combo_hold_active: g.combo_hold_active && !hold_breaks,
            combo_toggle_active: g.combo_toggle_active && !toggle_breaks,
            combo_paste_active: g.combo_paste_active && !paste_breaks,
            paste_pending: pending && !paste_breaks,
        },
        events: event_if(is_key(c.hold, k), ShortcutEvent::HoldRelease) + event_if(
            key_pastes,
            ShortcutEvent::PastePress,
        ) + event_if(hold_breaks, ShortcutEvent::HoldRelease) + event_if(
            paste_breaks && pending,
            ShortcutEvent::PastePress,
        ),
        suppress: is_key(c.hold, k) || key_pastes,
    }
}

/// Mouse button `b` went down: hold reports HoldPress, toggle TogglePress,
/// paste becomes pending; each of them on `b` swallows it.
pub open spec fn spec_button_press(g: GrabModel, c: ConfigModel, b: u8) -> Reaction {
    Reaction {
        state: GrabModel { paste_pending: g.paste_pending || is_button(c.paste, b), ..g },
        events: event_if(is_button(c.hold, b), ShortcutEvent::HoldPress) + event_if(
            is_button(c.toggle, b),
            ShortcutEvent::TogglePress,
        ),
        suppress: is_button(c.hold, b) || is_button(c.toggle, b) || is_button(c.paste, b),
    }
}

/// Mouse button `b` went up: hold reports HoldRelease, paste pastes where a
/// paste is pending; each of them swallows it.
pub open spec fn spec_button_release(g: GrabModel, c: ConfigModel, b: u8) -> Reaction {
    let pastes = is_button(c.paste, b) && g.paste_pending;
    Reaction {
        state: GrabModel { paste_pending: g.paste_pending && !pastes, ..g },
        events: event_if(is_button(c.hold, b), ShortcutEvent::HoldRelease) + event_if(
            pastes,
            ShortcutEvent::PastePress,
        ),
        suppress: is_button(c.hold, b) || pastes,
    }
}

/// An event that changes nothing and is let through.
pub open spec fn pass_through(g: GrabModel) -> TapOutcome {
    TapOutcome {
        state: g,
        suppress: false,
        reenable_tap: false,
        events: Seq::<ShortcutEvent>::empty(),
        captured: None,
    }
}

/// The outcome of a key or button reaction.
pub open spec fn reacted(r: Reaction) -> TapOutcome {
    TapOutcome {
        state: r.state,
        suppress: r.suppress,
        reenable_tap: false,
        events: r.events,
        captured: None,
    }
}

/// The state with `k` added to the held keys.
pub open spec fn with_pressed(g: GrabModel, k: u16) -> GrabModel {
    GrabModel { pressed: g.pressed.insert(k), ..g }
}

/// The state with `k` taken from the held keys.
pub open spec fn without_pressed(g: GrabModel, k: u16) -> GrabModel {
    GrabModel { pressed: g.pressed.remove(k), ..g }
}

/// The mouse button that a button-down event is of.
pub open spec fn down_button(ev: TapEvent) -> Option<u8> {
    if ev.event_type == EVENT_LEFT_MOUSE_DOWN {
        Some(0u8)
    } else if ev.event_type == EVENT_RIGHT_MOUSE_DOWN {
        Some(1u8)
    } else if ev.event_type == EVENT_OTHER_MOUSE_DOWN {
        Some(ev.button)
    } else {
        None
    }
}

/// The mouse button that a button-up event is of.
pub open spec fn up_button(ev: TapEvent) -> Option<u8> {
    if ev.event_type == EVENT_LEFT_MOUSE_UP {
        Some(0u8)
    } else if ev.event_type == EVENT_RIGHT_MOUSE_UP {
        Some(1u8)
    } else if ev.event_type == EVENT_OTHER_MOUSE_UP {
        Some(ev.button)
    } else {
        None
    }
}

/// The grabber's answer to one event.
///
/// A timeout notice re-enables the tap. In capture mode a mouse button going
/// down is captured as its shortcut string and swallowed; all else passes.
/// While shortcuts are disabled, a key going up (or a flags change of it) is
/// only forgotten from the held keys. Otherwise: a key going down that is not
/// yet held (a repeat passes untouched) is added and pressed; a key going up
/// is removed and released; a flags change of a modifier presses it where its
/// flag bit is set and it is not held, and releases it where the bit is clear
/// and it is held; mouse buttons are pressed and released.
pub open spec fn spec_handle_tap(
    g: GrabModel,
    c: ConfigModel,
    enabled: bool,
    capture_mode: bool,
    ev: TapEvent,
) -> TapOutcome {
    let k = ev.keycode;
    if ev.event_type == EVENT_TAP_DISABLED_BY_TIMEOUT {
        TapOutcome { reenable_tap: true, ..pass_through(g) }
    } else if capture_mode {
        match down_button(ev) {
            Some(b) => TapOutcome {
                suppress: true,
                captured: Some(spec_button_to_name(b)),
                ..pass_through(g)
            },
            None => pass_through(g),
        }
    } else if !enabled {
        if ev.event_type == EVENT_KEY_UP || ev.event_type == EVENT_FLAGS_CHANGED {
            pass_through(without_pressed(g, k))
        } else {
            pass_through(g)
        }
    } else if ev.event_type == EVENT_KEY_DOWN {
        if g.pressed.contains(k) {
            pass_through(g)
        } else {
            reacted(spec_key_press(with_pressed(g, k), c, k))
        }
    } else if ev.event_type == EVENT_KEY_UP {
        reacted(spec_key_release(without_pressed(g, k), c, k))
    } else if ev.event_type == EVENT_FLAGS_CHANGED {
        let flag = spec_modifier_flag(k);
        let flag_set = flag != 0 && (ev.flags & flag) != 0;
        if spec_is_modifier(k) && flag_set && !g.pressed.contains(k) {
            reacted(spec_key_press(with_pressed(g, k), c, k))
        } else if spec_is_modifier(k) && !flag_set && g.pressed.contains(k) {
            reacted(spec_key_release(without_pressed(g, k), c, k))
        } else {
            pass_through(g)
        }
    } else if down_button(ev) is Some {
        reacted(spec_button_press(g, c, down_button(ev)->0))
    } else if up_button(ev) is Some {
        reacted(spec_button_release(g, c, up_button(ev)->0))
    } else {
        pass_through(g)
    }
}

/// Whether every key of the combination is held.
pub fn keys_match_combo(pressed: &HashSet<u16>, combo: &[u16]) -> (r: bool)
    ensures
        r == combo_held(pressed@, combo@),
{
    let mut i: usize = 0;
    while i < combo.len()
        invariant
            i <= combo.len(),
            forall|j: int| 0 <= j < i ==> pressed@.contains(#[trigger] combo@[j]),
        decreases combo.len() - i,
    {
        if !pressed.contains(&combo[i]) {
            return false;
        }
        i = i + 1;
    }
    true
}

/// Fires the combination `shortcut` where it is not active and all its keys
/// are held; returns whether it fired.
fn fire_combo(shortcut: &ParsedShortcut, active: &mut bool, pressed: &HashSet<u16>) -> (r: bool)
    ensures
        r == combo_fires(shortcut@, *old(active), pressed@),
        *final(active) == (*old(active) || r),
{
    if let ParsedShortcut::Combo(combo) = shortcut {
        if !*active && keys_match_combo(pressed, combo.as_slice()) {
            *active = true;
            return true;
        }
    }
    false
}

/// Ends the combination `shortcut` where it is active and one of its keys is
/// no longer held; returns whether it ended.
fn break_combo(shortcut: &ParsedShortcut, active: &mut bool, pressed: &HashSet<u16>) -> (r: bool)
    ensures
        r == combo_breaks(shortcut@, *old(active), pressed@),
        *final(active) == (*old(active) && !r),
{
    if *active {
        if let ParsedShortcut::Combo(combo) = shortcut {
            if !keys_match_combo(pressed, combo.as_slice()) {
                *active = false;
                return true;
            }
        }
    }
    false
}

/// Whether the shortcut is the single key `k`.
fn shortcut_is_key(s: &ParsedShortcut, k: u16) -> (r: bool)
    ensures
        r == is_key(s@, k),
{
    match s {
        ParsedShortcut::SingleKey(x) => *x == k,
        _ => false,
    }
}

/// Whether the shortcut is the mouse button `b`.
fn shortcut_is_button(s: &ParsedShortcut, b: u8) -> (r: bool)
    ensures
        r == is_button(s@, b),
{
    match s {
        ParsedShortcut::MouseButton(x) => *x == b,
        _ => false,
    }
}

/// Reacts to key `keycode` going down, with it already among the held keys;
/// appends the events it reports and returns whether to swallow it.
pub fn process_key_press(
    state: &mut GrabState,
    config: &ShortcutConfig,
    keycode: u16,
    events: &mut Vec<ShortcutEvent>,
) -> (suppress: bool)
    ensures
        final(state)@ == spec_key_press(old(state)@, config@, keycode).state,
        final(events)@ == old(events)@ + spec_key_press(old(state)@, config@, keycode).events,
        suppress == spec_key_press(old(state)@, config@, keycode).suppress,
{
    let ghost g = state@;
    let ghost e0 = events@;
    let mut suppress = false;
    let hold_key = shortcut_is_key(&config.hold, keycode);
    let toggle_key = shortcut_is_key(&config.toggle, keycode);
    let paste_key = shortcut_is_key(&config.paste, keycode);
    if hold_key {
        events.push(ShortcutEvent::HoldPress);
        suppress = true;
    }
    if toggle_key {
        events.push(ShortcutEvent::TogglePress);
        suppress = true;
    }
    if paste_key {
        state.paste_pending = true;
        suppress = true;
    }
    let hold_fires = fire_combo(&config.hold, &mut state.combo_hold_active, &state.pressed);
    if hold_fires {
        events.push(ShortcutEvent::HoldPress);
        if !is_modifier(keycode) {
            suppress = true;
        }
    }
    let toggle_fires = fire_combo(&config.toggle, &mut state.combo_toggle_active, &state.pressed);
    if toggle_fires {
        events.push(ShortcutEvent::TogglePress);
        if !is_modifier(keycode) {
            suppress = true;
        }
    }
    let paste_fires = fire_combo(&config.paste, &mut state.combo_paste_active, &state.pressed);
    if paste_fires {
        state.paste_pending = true;
        if !is_modifier(keycode) {
            suppress = true;
        }
    }
    assert(events@ =~= e0 + spec_key_press(g, config@, keycode).events);
    suppress
}

/// Reacts to key `keycode` going up, with it already taken from the held
/// keys; appends the events it reports and returns whether to swallow it.
pub fn process_key_release(
    state: &mut GrabState,
    config: &ShortcutConfig,
    keycode: u16,
    events: &mut Vec<ShortcutEvent>,
) -> (suppress: bool)
    ensures
        final(state)@ == spec_key_release(old(state)@, config@, keycode).state,
        final(events)@ == old(events)@ + spec_key_release(old(state)@, config@, keycode).events,
        suppress == spec_key_release(old(state)@, config@, keycode).suppress,
{
    let ghost g = state@;
    let ghost e0 = events@;
    let mut suppress = false;
    if shortcut_is_key(&config.hold, keycode) {
        events.push(ShortcutEvent::HoldRelease);
        suppress = true;
    }
    if shortcut_is_key(&config.paste, keycode) && state.paste_pending {
        state.paste_pending = false;
        events.push(ShortcutEvent::PastePress);
        suppress = true;
    }
    if break_combo(&config.hold, &mut state.combo_hold_active, &state.pressed) {
        events.push(ShortcutEvent::HoldRelease);
    }
    break_combo(&config.toggle, &mut state.combo_toggle_active, &state.pressed);
    if break_combo(&config.paste, &mut state.combo_paste_active, &state.pressed) {
        if state.paste_pending {
            state.paste_pending = false;
            events.push(ShortcutEvent::PastePress);
        }
    }
    assert(events@ =~= e0 + spec_key_release(g, config@, keycode).events);
    suppress
}

/// Reacts to mouse button `btn` going down; appends the events it reports
/// and returns whether to swallow it.
pub fn process_button_press(
    state: &mut GrabState,
    config: &ShortcutConfig,
    btn: u8,
    events: &mut Vec<ShortcutEvent>,
) -> (suppress: bool)
    ensures
        final(state)@ == spec_button_press(old(state)@, config@, btn).state,
        final(events)@ == old(events)@ + spec_button_press(old(state)@, config@, btn).events,
        suppress == spec_button_press(old(state)@, config@, btn).suppress,
{
    let ghost g = state@;
    let ghost e0 = events@;
    let mut suppress = false;
    if shortcut_is_button(&config.hold, btn) {
        events.push(ShortcutEvent::HoldPress);
        suppress = true;
    }
    if shortcut_is_button(&config.toggle, btn) {
        events.push(ShortcutEvent::TogglePress);
        suppress = true;
    }
    if shortcut_is_button(&config.paste, btn) {
        state.paste_pending = true;
        suppress = true;
    }
    assert(events@ =~= e0 + spec_button_press(g, config@, btn).events);
    suppress
}

/// Reacts to mouse button `btn` going up; appends the events it reports and
/// returns whether to swallow it.
pub fn process_button_release(
    state: &mut GrabState,
    config: &ShortcutConfig,
    btn: u8,
    events: &mut Vec<ShortcutEvent>,
) -> (suppress: bool)
    ensures
        final(state)@ == spec_button_release(old(state)@, config@, btn).state,
        final(events)@ == old(events)@ + spec_button_release(old(state)@, config@, btn).events,
        suppress == spec_button_release(old(state)@, config@, btn).suppress,
{
    let ghost g = state@;
    let ghost e0 = events@;
    let mut suppress = false;
    if shortcut_is_button(&config.hold, btn) {
        events.push(ShortcutEvent::HoldRelease);
        suppress = true;
    }
    if shortcut_is_button(&config.paste, btn) && state.paste_pending {
        state.paste_pending = false;
        events.push(ShortcutEvent::PastePress);
        suppress = true;
    }
    assert(events@ =~= e0 + spec_button_release(g, config@, btn).events);
    suppress
}

/// The mouse button that a button-down event is of.
fn down_button_of(ev: TapEvent) -> (r: Option<u8>)
    ensures
        r == down_button(ev),
{
    if ev.event_type == EVENT_LEFT_MOUSE_DOWN {
        Some(0u8)
    } else if ev.event_type == EVENT_RIGHT_MOUSE_DOWN {
        Some(1u8)
    } else if ev.event_type == EVENT_OTHER_MOUSE_DOWN {
        Some(ev.button)
    } else {
        None
    }
}

/// The mouse button that a button-up event is of.
fn up_button_of(ev: TapEvent) -> (r: Option<u8>)
    ensures
        r == up_button(ev),
{
    if ev.event_type == EVENT_LEFT_MOUSE_UP {
        Some(0u8)
    } else if ev.event_type == EVENT_RIGHT_MOUSE_UP {
        Some(1u8)
    } else if ev.event_type == EVENT_OTHER_MOUSE_UP {
        Some(ev.button)
    } else {
        None
    }
}

/// An answer that lets the event through.
fn passed() -> (r: TapResponse)
    ensures
        !r.suppress,
        !r.reenable_tap,
        r.events@ == Seq::<ShortcutEvent>::empty(),
        r.captured is None,
{
    TapResponse { suppress: false, reenable_tap: false, events: Vec::new(), captured: None }
}

/// The value of an answer, with the state after the event.
pub open spec fn outcome_of(g: GrabModel, r: TapResponse) -> TapOutcome {
    TapOutcome {
        state: g,
        suppress: r.suppress,
        reenable_tap: r.reenable_tap,
        events: r.events@,
        captured: match r.captured {
            Some(s) => Some(s@),
            None => None,
        },
    }
}

/// The grabber's answer to one event, given whether shortcuts are enabled,
/// whether a mouse button is being captured, and the shortcuts in force.
pub fn handle_tap_event(
    state: &mut GrabState,
    config: &ShortcutConfig,
    enabled: bool,
    capture_mode: bool,
    ev: TapEvent,
) -> (r: TapResponse)
    ensures
        outcome_of(final(state)@, r) == spec_handle_tap(
            old(state)@,
            config@,
            enabled,
            capture_mode,
            ev,
        ),
{
    let keycode = ev.keycode;
    if ev.event_type == EVENT_TAP_DISABLED_BY_TIMEOUT {
        let mut r = passed();
        r.reenable_tap = true;
        return r;
    }
    if capture_mode {
        if let Some(b) = down_button_of(ev) {
            let name = button_to_name(b);
            return TapResponse {
                suppress: true,
                reenable_tap: false,
                events: Vec::new(),
                captured: Some(name),
            };
        }
        return passed();
    }
    if !enabled {
        if ev.event_type == EVENT_KEY_UP || ev.event_type == EVENT_FLAGS_CHANGED {
            state.pressed.remove(&keycode);
        }
        return passed();
    }
    let mut events: Vec<ShortcutEvent> = Vec::new();
    if ev.event_type == EVENT_KEY_DOWN {
        if !state.pressed.insert(keycode) {
            assert(state.pressed@ =~= old(state).pressed@);
            return passed();
        }
        let suppress = process_key_press(state, config, keycode, &mut events);
        return TapResponse { suppress, reenable_tap: false, events, captured: None };
    }
    if ev.event_type == EVENT_KEY_UP {
        state.pressed.remove(&keycode);
        let suppress = process_key_release(state, config, keycode, &mut events);
        return TapResponse { suppress, reenable_tap: false, events, captured: None };
    }
    if ev.event_type == EVENT_FLAGS_CHANGED {
        let in_pressed = state.pressed.contains(&keycode);
        if is_modifier(keycode) {
            let flag = modifier_flag_for_keycode(keycode);
            let flag_set = flag != 0 && (ev.flags & flag) != 0;
            if flag_set && !in_pressed {
                state.pressed.insert(keycode);
                let suppress = process_key_press(state, config, keycode, &mut events);
                return TapResponse { suppress, reenable_tap: false, events, captured: None };
            } else if !flag_set && in_pressed {
                state.pressed.remove(&keycode);
                let suppress = process_key_release(state, config, keycode, &mut events);
                return TapResponse { suppress, reenable_tap: false, events, captured: None };
            }
        }
        return passed();
    }
    if let Some(btn) = down_button_of(ev) {
        let suppress = process_button_press(state, config, btn, &mut events);
        return TapResponse { suppress, reenable_tap: false, events, captured: None };
    }
    if let Some(btn) = up_button_of(ev) {
        let suppress = process_button_release(state, config, btn, &mut events);
        return TapResponse { suppress, reenable_tap: false, events, captured: None };
    }
    passed()
}

} // verus!
