//! What holds of the grabber over one event and over a press followed by a
//! release.
use vstd::prelude::*;

use crate::grab::{
    combo_breaks, combo_fires, down_button, event_if, is_button, is_key, spec_handle_tap,
    spec_key_press, spec_key_release, up_button, GrabModel, TapEvent, EVENT_FLAGS_CHANGED,
    EVENT_LEFT_MOUSE_DOWN, EVENT_LEFT_MOUSE_UP, EVENT_OTHER_MOUSE_DOWN, EVENT_OTHER_MOUSE_UP,
    EVENT_RIGHT_MOUSE_DOWN, EVENT_RIGHT_MOUSE_UP,
    EVENT_KEY_DOWN, EVENT_KEY_UP, EVENT_TAP_DISABLED_BY_TIMEOUT,
};
use crate::keys::{spec_is_modifier, spec_modifier_flag};
use crate::laws::lemma_captured_button_parses;
use crate::shortcut::{
    spec_button_to_name, spec_parse_shortcut, ConfigModel, ShortcutEvent, ShortcutModel,
};

verus! {

/// While shortcuts are disabled and no button is being captured, the grabber
/// reports nothing, swallows nothing and keeps its combination and paste
/// state; it only forgets keys that go up.
pub proof fn lemma_disabled_grab_is_silent(g: GrabModel, c: ConfigModel, ev: TapEvent)
    requires
        ev.event_type != EVENT_TAP_DISABLED_BY_TIMEOUT,
    ensures
        ({
            let o = spec_handle_tap(g, c, false, false, ev);
            &&& o.events.len() == 0
            &&& !o.suppress
            &&& o.captured is None
            &&& o.state.pressed.subset_of(g.pressed)
            &&& o.state.combo_hold_active == g.combo_hold_active
            &&& o.state.combo_toggle_active == g.combo_toggle_active
            &&& o.state.combo_paste_active == g.combo_paste_active
            &&& o.state.paste_pending == g.paste_pending
        }),
{
}

/// A key that goes down again while held (auto-repeat) is let through and
/// changes nothing.
pub proof fn lemma_key_repeat_is_ignored(g: GrabModel, c: ConfigModel, ev: TapEvent)
    requires
        ev.event_type == EVENT_KEY_DOWN,
        g.pressed.contains(ev.keycode),
    ensures
        ({
            let o = spec_handle_tap(g, c, true, false, ev);
            &&& o.state == g
            &&& o.events.len() == 0
            &&& !o.suppress
        }),
{
}

/// In capture mode a mouse button going down is swallowed and captured as a
/// shortcut string that parses back to that button, where it is one of the
/// five named ones; nothing is reported and the state stays.
pub proof fn lemma_capture_records_button(
    g: GrabModel,
    c: ConfigModel,
    enabled: bool,
    ev: TapEvent,
)
    requires
        down_button(ev) is Some,
    ensures
        ({
            let o = spec_handle_tap(g, c, enabled, true, ev);
            let b = down_button(ev)->0;
            &&& o.captured == Some(spec_button_to_name(b))
            &&& o.suppress
            &&& o.events.len() == 0
            &&& o.state == g
            &&& spec_parse_shortcut(o.captured->0) == (if b < 5 {
                ShortcutModel::MouseButton(b)
            } else {
                ShortcutModel::Unset
            })
        }),
{
    lemma_captured_button_parses(down_button(ev)->0);
}

/// Neither the toggle nor the paste shortcut is the key `k`, nor a combination.
pub open spec fn others_leave_key(c: ConfigModel, k: u16) -> bool {
    &&& !is_key(c.toggle, k)
    &&& !is_key(c.paste, k)
    &&& !(c.toggle is Combo)
    &&& !(c.paste is Combo)
}

/// Holding the hold key and letting it go reports HoldPress, then
/// HoldRelease; both are swallowed and the state is as before.
pub proof fn lemma_hold_key_press_then_release(
    g: GrabModel,
    c: ConfigModel,
    k: u16,
    down: TapEvent,
    up: TapEvent,
)
    requires
        c.hold == ShortcutModel::SingleKey(k),
        others_leave_key(c, k),
        !g.pressed.contains(k),
        down.event_type == EVENT_KEY_DOWN,
        down.keycode == k,
        up.event_type == EVENT_KEY_UP,
        up.keycode == k,
    ensures
        ({
            let o1 = spec_handle_tap(g, c, true, false, down);
            let o2 = spec_handle_tap(o1.state, c, true, false, up);
            &&& o1.events == seq![ShortcutEvent::HoldPress]
            &&& o1.suppress
            &&& o2.events == seq![ShortcutEvent::HoldRelease]
            &&& o2.suppress
            &&& o2.state == g
        }),
{
    let o1 = spec_handle_tap(g, c, true, false, down);
    let o2 = spec_handle_tap(o1.state, c, true, false, up);
    assert(o1.events =~= seq![ShortcutEvent::HoldPress]);
    assert(o2.events =~= seq![ShortcutEvent::HoldRelease]);
    assert(o2.state.pressed =~= g.pressed);
}

/// Holding a modifier that is the hold key and letting it go (both arrive as
/// flag changes) reports HoldPress, then HoldRelease; both are swallowed and
/// the state is as before.
pub proof fn lemma_hold_modifier_press_then_release(
    g: GrabModel,
    c: ConfigModel,
    k: u16,
    down: TapEvent,
    up: TapEvent,
)
    requires
        c.hold == ShortcutModel::SingleKey(k),
        others_leave_key(c, k),
        spec_is_modifier(k),
        !g.pressed.contains(k),
        down.event_type == EVENT_FLAGS_CHANGED,
        down.keycode == k,
        down.flags & spec_modifier_flag(k) != 0,
        up.event_type == EVENT_FLAGS_CHANGED,
        up.keycode == k,
        up.flags & spec_modifier_flag(k) == 0,
    ensures
        ({
            let o1 = spec_handle_tap(g, c, true, false, down);
            let o2 = spec_handle_tap(o1.state, c, true, false, up);
            &&& o1.events == seq![ShortcutEvent::HoldPress]
            &&& o1.suppress
            &&& o2.events == seq![ShortcutEvent::HoldRelease]
            &&& o2.suppress
            &&& o2.state == g
        }),
{
    let o1 = spec_handle_tap(g, c, true, false, down);
    let o2 = spec_handle_tap(o1.state, c, true, false, up);
    assert(o1.events =~= seq![ShortcutEvent::HoldPress]);
    assert(o2.events =~= seq![ShortcutEvent::HoldRelease]);
    assert(o2.state.pressed =~= g.pressed);
}

/// Pressing the paste key reports nothing but swallows it; letting it go
/// pastes once and leaves no paste pending.
pub proof fn lemma_paste_key_fires_on_release(
    g: GrabModel,
    c: ConfigModel,
    k: u16,
    down: TapEvent,
    up: TapEvent,
)
    requires
        c.paste == ShortcutModel::SingleKey(k),
        !is_key(c.hold, k),
        !is_key(c.toggle, k),
        !(c.hold is Combo),
        !(c.toggle is Combo),
        !g.pressed.contains(k),
        down.event_type == EVENT_KEY_DOWN,
        down.keycode == k,
        up.event_type == EVENT_KEY_UP,
        up.keycode == k,
    ensures
        ({
            let o1 = spec_handle_tap(g, c, true, false, down);
            let o2 = spec_handle_tap(o1.state, c, true, false, up);
            &&& o1.events.len() == 0
            &&& o1.suppress
            &&& o1.state.paste_pending
            &&& o2.events == seq![ShortcutEvent::PastePress]
            &&& o2.suppress
            &&& !o2.state.paste_pending
        }),
{
    let o1 = spec_handle_tap(g, c, true, false, down);
    let o2 = spec_handle_tap(o1.state, c, true, false, up);
    assert(o2.events =~= seq![ShortcutEvent::PastePress]);
}

/// Pressing the key that completes the hold combination reports HoldPress
/// (swallowing the key unless it is a modifier); letting go any key of the
/// combination then reports HoldRelease and ends it.
pub proof fn lemma_hold_combo_press_then_release(
    g: GrabModel,
    c: ConfigModel,
    keys: Seq<u16>,
    down: TapEvent,
    up: TapEvent,
)
    requires
        c.hold == ShortcutModel::Combo(keys),
        c.toggle == ShortcutModel::Unset,
        c.paste == ShortcutModel::Unset,
        !g.combo_hold_active,
        down.event_type == EVENT_KEY_DOWN,
        !g.pressed.contains(down.keycode),
        forall|i: int| 0 <= i < keys.len() ==> g.pressed.insert(down.keycode).contains(keys[i]),
        up.event_type == EVENT_KEY_UP,
        keys.contains(up.keycode),
    ensures
        ({
            let o1 = spec_handle_tap(g, c, true, false, down);
            let o2 = spec_handle_tap(o1.state, c, true, false, up);
            &&& o1.events == seq![ShortcutEvent::HoldPress]
            &&& o1.suppress == !spec_is_modifier(down.keycode)
            &&& o1.state.combo_hold_active
            &&& o2.events == seq![ShortcutEvent::HoldRelease]
            &&& !o2.suppress
            &&& !o2.state.combo_hold_active
        }),
{
    let o1 = spec_handle_tap(g, c, true, false, down);
    let o2 = spec_handle_tap(o1.state, c, true, false, up);
    assert(o1.events =~= seq![ShortcutEvent::HoldPress]);
    let j = choose|j: int| 0 <= j < keys.len() && keys[j] == up.keycode;
    assert(!o1.state.pressed.remove(up.keycode).contains(keys[j]));
    assert(o2.events =~= seq![ShortcutEvent::HoldRelease]);
}

/// While the hold combination is active, no key press reports HoldPress again.
pub proof fn lemma_active_hold_combo_does_not_repeat(
    g: GrabModel,
    c: ConfigModel,
    keys: Seq<u16>,
    k: u16,
)
    requires
        c.hold == ShortcutModel::Combo(keys),
        g.combo_hold_active,
    ensures
        !spec_key_press(g, c, k).events.contains(ShortcutEvent::HoldPress),
{
    let e = spec_key_press(g, c, k).events;
    if e.contains(ShortcutEvent::HoldPress) {
        let i = choose|i: int| 0 <= i < e.len() && e[i] == ShortcutEvent::HoldPress;
        assert(e[i] == ShortcutEvent::TogglePress);
    }
}

/// One call of the grabber: the shortcuts in force, whether shortcuts are
/// enabled, whether a button is being captured, and the event.
pub struct TapInput {
    pub config: ConfigModel,
    pub enabled: bool,
    pub capture_mode: bool,
    pub event: TapEvent,
}

/// The state after a run of calls from `g`, and all events reported, in order.
pub open spec fn run_taps(g: GrabModel, inputs: Seq<TapInput>) -> (GrabModel, Seq<ShortcutEvent>)
    decreases inputs.len(),
{
    if inputs.len() == 0 {
        (g, Seq::<ShortcutEvent>::empty())
    } else {
        let (g1, es) = run_taps(g, inputs.drop_last());
        let i = inputs.last();
        let o = spec_handle_tap(g1, i.config, i.enabled, i.capture_mode, i.event);
        (o.state, es + o.events)
    }
}

/// A hold event: HoldPress or HoldRelease.
pub open spec fn is_hold_event(e: ShortcutEvent) -> bool {
    e == ShortcutEvent::HoldPress || e == ShortcutEvent::HoldRelease
}

/// The hold events among `es`, in order.
pub open spec fn hold_events(es: Seq<ShortcutEvent>) -> Seq<ShortcutEvent>
    decreases es.len(),
{
    if es.len() == 0 {
        Seq::<ShortcutEvent>::empty()
    } else if is_hold_event(es.last()) {
        hold_events(es.drop_last()).push(es.last())
    } else {
        hold_events(es.drop_last())
    }
}

/// How often `e` occurs in `es`.
pub open spec fn count_event(es: Seq<ShortcutEvent>, e: ShortcutEvent) -> nat
    decreases es.len(),
{
    if es.len() == 0 {
        0
    } else if es.last() == e {
        count_event(es.drop_last(), e) + 1
    } else {
        count_event(es.drop_last(), e)
    }
}

/// HoldPress and HoldRelease take turns, beginning with HoldPress.
pub open spec fn alternates(h: Seq<ShortcutEvent>) -> bool {
    forall|i: int|
        0 <= i < h.len() ==> #[trigger] h[i] == (if i % 2 == 0 {
            ShortcutEvent::HoldPress
        } else {
            ShortcutEvent::HoldRelease
        })
}

/// Hold events of a concatenation are those of each part, in order.
proof fn lemma_hold_events_concat(a: Seq<ShortcutEvent>, b: Seq<ShortcutEvent>)
    ensures
        hold_events(a + b) == hold_events(a) + hold_events(b),
    decreases b.len(),
{
    if b.len() == 0 {
        assert(a + b =~= a);
        assert(hold_events(a) + hold_events(b) =~= hold_events(a));
    } else {
        lemma_hold_events_concat(a, b.drop_last());
        assert((a + b).drop_last() =~= a + b.drop_last());
        assert((a + b).last() == b.last());
        if is_hold_event(b.last()) {
            assert(hold_events(a + b) =~= hold_events(a) + hold_events(b));
        } else {
            assert(hold_events(a + b) =~= hold_events(a) + hold_events(b));
        }
    }
}

/// Hold events of zero or one event.
proof fn lemma_hold_events_of_event_if(b: bool, e: ShortcutEvent)
    ensures
        hold_events(event_if(b, e)) == (if b && is_hold_event(e) {
            seq![e]
        } else {
            Seq::<ShortcutEvent>::empty()
        }),
{
    assert(hold_events(Seq::<ShortcutEvent>::empty()) == Seq::<ShortcutEvent>::empty());
    if b {
        assert(event_if(b, e).drop_last() =~= Seq::<ShortcutEvent>::empty());
        assert(event_if(b, e).last() == e);
        assert(event_if(b, e).len() == 1);
        assert(hold_events(event_if(b, e)) =~= (if is_hold_event(e) {
            seq![e]
        } else {
            Seq::<ShortcutEvent>::empty()
        }));
    }
}

/// With the hold shortcut a combination, a key press reports HoldPress
/// exactly where it activates the combination, and no other hold event.
proof fn lemma_combo_hold_press(g1: GrabModel, c: ConfigModel, k: u16)
    requires
        c.hold is Combo,
    ensures
        ({
            let r = spec_key_press(g1, c, k);
            let h = hold_events(r.events);
            ||| h.len() == 0 && r.state.combo_hold_active == g1.combo_hold_active
            ||| h == seq![ShortcutEvent::HoldPress] && !g1.combo_hold_active
                && r.state.combo_hold_active
        }),
{
    let hold_fires = combo_fires(c.hold, g1.combo_hold_active, g1.pressed);
    let toggle_fires = combo_fires(c.toggle, g1.combo_toggle_active, g1.pressed);
    let e1 = event_if(is_key(c.hold, k), ShortcutEvent::HoldPress);
    let e2 = event_if(is_key(c.toggle, k), ShortcutEvent::TogglePress);
    let e3 = event_if(hold_fires, ShortcutEvent::HoldPress);
    let e4 = event_if(toggle_fires, ShortcutEvent::TogglePress);
    lemma_hold_events_concat(e1 + e2 + e3, e4);
    lemma_hold_events_concat(e1 + e2, e3);
    lemma_hold_events_concat(e1, e2);
    lemma_hold_events_of_event_if(is_key(c.hold, k), ShortcutEvent::HoldPress);
    lemma_hold_events_of_event_if(is_key(c.toggle, k), ShortcutEvent::TogglePress);
    lemma_hold_events_of_event_if(hold_fires, ShortcutEvent::HoldPress);
    lemma_hold_events_of_event_if(toggle_fires, ShortcutEvent::TogglePress);
    assert(hold_events(spec_key_press(g1, c, k).events) =~= event_if(
        hold_fires,
        ShortcutEvent::HoldPress,
    ));
}

/// With the hold shortcut a combination, a key release reports HoldRelease
/// exactly where it ends the combination, and no other hold event.
proof fn lemma_combo_hold_release(g1: GrabModel, c: ConfigModel, k: u16)
    requires
        c.hold is Combo,
    ensures
        ({
            let r = spec_key_release(g1, c, k);
            let h = hold_events(r.events);
            ||| h.len() == 0 && r.state.combo_hold_active == g1.combo_hold_active
            ||| h == seq![ShortcutEvent::HoldRelease] && g1.combo_hold_active
                && !r.state.combo_hold_active
        }),
{
    let key_pastes = is_key(c.paste, k) && g1.paste_pending;
    let pending = g1.paste_pending && !key_pastes;
    let hold_breaks = combo_breaks(c.hold, g1.combo_hold_active, g1.pressed);
    let paste_breaks = combo_breaks(c.paste, g1.combo_paste_active, g1.pressed);
    let e1 = event_if(is_key(c.hold, k), ShortcutEvent::HoldRelease);
    let e2 = event_if(key_pastes, ShortcutEvent::PastePress);
    let e3 = event_if(hold_breaks, ShortcutEvent::HoldRelease);
    let e4 = event_if(paste_breaks && pending, ShortcutEvent::PastePress);
    lemma_hold_events_concat(e1 + e2 + e3, e4);
    lemma_hold_events_concat(e1 + e2, e3);
    lemma_hold_events_concat(e1, e2);
    lemma_hold_events_of_event_if(is_key(c.hold, k), ShortcutEvent::HoldRelease);
    lemma_hold_events_of_event_if(key_pastes, ShortcutEvent::PastePress);
    lemma_hold_events_of_event_if(hold_breaks, ShortcutEvent::HoldRelease);
    lemma_hold_events_of_event_if(paste_breaks && pending, ShortcutEvent::PastePress);
    assert(hold_events(spec_key_release(g1, c, k).events) =~= event_if(
        hold_breaks,
        ShortcutEvent::HoldRelease,
    ));
}

/// With the hold shortcut a combination, one event reports no hold event
/// and leaves the combination as it was, or reports HoldPress and
/// activates it, or reports HoldRelease and ends it.
proof fn lemma_combo_hold_step(
    g: GrabModel,
    c: ConfigModel,
    enabled: bool,
    capture_mode: bool,
    ev: TapEvent,
)
    requires
        c.hold is Combo,
    ensures
        ({
            let o = spec_handle_tap(g, c, enabled, capture_mode, ev);
            let h = hold_events(o.events);
            ||| h.len() == 0 && o.state.combo_hold_active == g.combo_hold_active
            ||| h == seq![ShortcutEvent::HoldPress] && !g.combo_hold_active
                && o.state.combo_hold_active
            ||| h == seq![ShortcutEvent::HoldRelease] && g.combo_hold_active
                && !o.state.combo_hold_active
        }),
{
    let k = ev.keycode;
    assert(hold_events(Seq::<ShortcutEvent>::empty()) == Seq::<ShortcutEvent>::empty());
    lemma_combo_hold_press(GrabModel { pressed: g.pressed.insert(k), ..g }, c, k);
    lemma_combo_hold_release(GrabModel { pressed: g.pressed.remove(k), ..g }, c, k);
    if down_button(ev) is Some {
        let b = down_button(ev)->0;
        let e1 = event_if(is_button(c.hold, b), ShortcutEvent::HoldPress);
        let e2 = event_if(is_button(c.toggle, b), ShortcutEvent::TogglePress);
        lemma_hold_events_concat(e1, e2);
        lemma_hold_events_of_event_if(is_button(c.hold, b), ShortcutEvent::HoldPress);
        lemma_hold_events_of_event_if(is_button(c.toggle, b), ShortcutEvent::TogglePress);
    }
    if up_button(ev) is Some {
        let b = up_button(ev)->0;
        let pastes = is_button(c.paste, b) && g.paste_pending;
        let e1 = event_if(is_button(c.hold, b), ShortcutEvent::HoldRelease);
        let e2 = event_if(pastes, ShortcutEvent::PastePress);
        lemma_hold_events_concat(e1, e2);
        lemma_hold_events_of_event_if(is_button(c.hold, b), ShortcutEvent::HoldRelease);
        lemma_hold_events_of_event_if(pastes, ShortcutEvent::PastePress);
    }
}

/// Over any run of calls that starts with the hold combination inactive and
/// has a combination as the hold shortcut throughout (whatever else the
/// calls hold), HoldPress and HoldRelease take turns, beginning with
/// HoldPress, and afterwards the combination is active exactly where more
/// HoldPress than HoldRelease were reported.
pub proof fn lemma_combo_hold_presses_and_releases_alternate(g: GrabModel, inputs: Seq<TapInput>)
    requires
        !g.combo_hold_active,
        forall|i: int| 0 <= i < inputs.len() ==> (#[trigger] inputs[i]).config.hold is Combo,
    ensures
        ({
            let (g2, es) = run_taps(g, inputs);
            let h = hold_events(es);
            &&& alternates(h)
            &&& g2.combo_hold_active == (count_event(h, ShortcutEvent::HoldPress) > count_event(
                h,
                ShortcutEvent::HoldRelease,
            ))
            &&& g2.combo_hold_active == (h.len() % 2 == 1)
            &&& count_event(h, ShortcutEvent::HoldPress) == count_event(
                h,
                ShortcutEvent::HoldRelease,
            ) + (if g2.combo_hold_active {
                1nat
            } else {
                0nat
            })
        }),
    decreases inputs.len(),
{
    if inputs.len() == 0 {
        assert(hold_events(Seq::<ShortcutEvent>::empty()) =~= Seq::<ShortcutEvent>::empty());
    } else {
        let init = inputs.drop_last();
        assert forall|i: int| 0 <= i < init.len() implies (#[trigger] init[i]).config.hold is Combo by {
            assert(init[i] == inputs[i]);
        }
        lemma_combo_hold_presses_and_releases_alternate(g, init);
        let (g1, es) = run_taps(g, init);
        let x = inputs.last();
        assert(inputs[inputs.len() - 1] == x);
        let o = spec_handle_tap(g1, x.config, x.enabled, x.capture_mode, x.event);
        lemma_combo_hold_step(g1, x.config, x.enabled, x.capture_mode, x.event);
        lemma_hold_events_concat(es, o.events);
        let h0 = hold_events(es);
        let h = hold_events(es + o.events);
        let d = hold_events(o.events);
        if d.len() != 0 {
            let e = d[0];
            assert(h =~= h0.push(e));
            assert(h.drop_last() =~= h0);
            assert(h.last() == e);
        } else {
            assert(h =~= h0);
        }
    }
}

/// `ev` is button `b` going down: the left button is 0, the right button 1,
/// and any other button goes by the event's button number.
pub open spec fn is_down_of(ev: TapEvent, b: u8) -> bool {
    ||| b == 0 && ev.event_type == EVENT_LEFT_MOUSE_DOWN
    ||| b == 1 && ev.event_type == EVENT_RIGHT_MOUSE_DOWN
    ||| ev.event_type == EVENT_OTHER_MOUSE_DOWN && ev.button == b
}

/// `ev` is button `b` going up: the left button is 0, the right button 1,
/// and any other button goes by the event's button number.
pub open spec fn is_up_of(ev: TapEvent, b: u8) -> bool {
    ||| b == 0 && ev.event_type == EVENT_LEFT_MOUSE_UP
    ||| b == 1 && ev.event_type == EVENT_RIGHT_MOUSE_UP
    ||| ev.event_type == EVENT_OTHER_MOUSE_UP && ev.button == b
}

/// Holding the hold mouse button and letting it go (left, right or any other
/// button) reports HoldPress, then HoldRelease, both swallowed, and leaves
/// the state as it was.
pub proof fn lemma_hold_button_press_then_release(
    g: GrabModel,
    c: ConfigModel,
    b: u8,
    down: TapEvent,
    up: TapEvent,
)
    requires
        c.hold == ShortcutModel::MouseButton(b),
        c.toggle != ShortcutModel::MouseButton(b),
        c.paste != ShortcutModel::MouseButton(b),
        is_down_of(down, b),
        is_up_of(up, b),
    ensures
        ({
            let o1 = spec_handle_tap(g, c, true, false, down);
            let o2 = spec_handle_tap(o1.state, c, true, false, up);
            &&& o1.events == seq![ShortcutEvent::HoldPress]
            &&& o1.suppress
            &&& o2.events == seq![ShortcutEvent::HoldRelease]
            &&& o2.suppress
            &&& o2.state == g
        }),
{
    let o1 = spec_handle_tap(g, c, true, false, down);
    let o2 = spec_handle_tap(o1.state, c, true, false, up);
    assert(o1.events =~= seq![ShortcutEvent::HoldPress]);
    assert(o2.events =~= seq![ShortcutEvent::HoldRelease]);
}

/// A mouse button that is one of the shortcuts going down is swallowed. The
/// hold button reports HoldPress, the toggle button TogglePress, and the
/// paste button makes a paste pending; a button that is none of them is let
/// through with no report.
pub proof fn lemma_shortcut_button_press(g: GrabModel, c: ConfigModel, b: u8, down: TapEvent)
    requires
        is_down_of(down, b),
    ensures
        ({
            let o = spec_handle_tap(g, c, true, false, down);
            let is_shortcut = c.hold == ShortcutModel::MouseButton(b) || c.toggle
                == ShortcutModel::MouseButton(b) || c.paste == ShortcutModel::MouseButton(b);
            &&& o.suppress == is_shortcut
            &&& (c.hold == ShortcutModel::MouseButton(b) <==> o.events.contains(
                ShortcutEvent::HoldPress,
            ))
            &&& (c.toggle == ShortcutModel::MouseButton(b) <==> o.events.contains(
                ShortcutEvent::TogglePress,
            ))
            &&& (c.paste == ShortcutModel::MouseButton(b) ==> o.state.paste_pending)
            &&& (!is_shortcut ==> o.events.len() == 0 && o.state == g)
        }),
{
    let o = spec_handle_tap(g, c, true, false, down);
    let hp = c.hold == ShortcutModel::MouseButton(b);
    let tp = c.toggle == ShortcutModel::MouseButton(b);
    let e1 = if hp { seq![ShortcutEvent::HoldPress] } else { Seq::<ShortcutEvent>::empty() };
    let e2 = if tp { seq![ShortcutEvent::TogglePress] } else { Seq::<ShortcutEvent>::empty() };
    assert(o.events =~= e1 + e2);
    if hp {
        assert(o.events[0] == ShortcutEvent::HoldPress);
    }
    if tp {
        assert(o.events[o.events.len() - 1] == ShortcutEvent::TogglePress);
    }
    if o.events.contains(ShortcutEvent::HoldPress) {
        let i = choose|i: int| 0 <= i < o.events.len() && o.events[i] == ShortcutEvent::HoldPress;
        assert(hp);
    }
    if o.events.contains(ShortcutEvent::TogglePress) {
        let i = choose|i: int| 0 <= i < o.events.len() && o.events[i] == ShortcutEvent::TogglePress;
        assert(tp);
    }
    if !(hp || tp || c.paste == ShortcutModel::MouseButton(b)) {
        assert(o.state =~= g);
    }
}

/// The event alone where `b` holds, else no event.
pub open spec fn only_if(b: bool, e: ShortcutEvent) -> Seq<ShortcutEvent> {
    if b {
        seq![e]
    } else {
        Seq::<ShortcutEvent>::empty()
    }
}

/// No shortcut is a key combination.
pub open spec fn no_combos(c: ConfigModel) -> bool {
    !(c.hold is Combo) && !(c.toggle is Combo) && !(c.paste is Combo)
}

/// With no combinations set, a key `k` going down that is not yet held is
/// added to the held keys and swallowed exactly where it is one of the
/// shortcut keys; the hold key reports HoldPress, then the toggle key
/// TogglePress, and the paste key only makes a paste pending.
pub proof fn lemma_key_down_reports(g: GrabModel, c: ConfigModel, down: TapEvent)
    requires
        no_combos(c),
        down.event_type == EVENT_KEY_DOWN,
        !g.pressed.contains(down.keycode),
    ensures
        ({
            let k = down.keycode;
            let o = spec_handle_tap(g, c, true, false, down);
            let hold = c.hold == ShortcutModel::SingleKey(k);
            let toggle = c.toggle == ShortcutModel::SingleKey(k);
            let paste = c.paste == ShortcutModel::SingleKey(k);
            &&& o.events == only_if(hold, ShortcutEvent::HoldPress) + only_if(
                toggle,
                ShortcutEvent::TogglePress,
            )
            &&& o.suppress == (hold || toggle || paste)
            &&& o.state.pressed == g.pressed.insert(k)
            &&& o.state.paste_pending == (g.paste_pending || paste)
            &&& o.captured is None
        }),
{
    let k = down.keycode;
    let o = spec_handle_tap(g, c, true, false, down);
    assert(o.events =~= only_if(c.hold == ShortcutModel::SingleKey(k), ShortcutEvent::HoldPress)
        + only_if(c.toggle == ShortcutModel::SingleKey(k), ShortcutEvent::TogglePress));
}

/// With no combinations set, a key `k` going up leaves the held keys; the
/// hold key reports HoldRelease, then the paste key pastes where a paste is
/// pending; the key is swallowed exactly where one of these happens or it
/// is the hold key.
pub proof fn lemma_key_up_reports(g: GrabModel, c: ConfigModel, up: TapEvent)
    requires
        no_combos(c),
        up.event_type == EVENT_KEY_UP,
    ensures
        ({
            let k = up.keycode;
            let o = spec_handle_tap(g, c, true, false, up);
            let hold = c.hold == ShortcutModel::SingleKey(k);
            let pastes = c.paste == ShortcutModel::SingleKey(k) && g.paste_pending;
            &&& o.events == only_if(hold, ShortcutEvent::HoldRelease) + only_if(
                pastes,
                ShortcutEvent::PastePress,
            )
            &&& o.suppress == (hold || pastes)
            &&& o.state.pressed == g.pressed.remove(k)
            &&& o.state.paste_pending == (g.paste_pending && !pastes)
            &&& o.captured is None
        }),
{
    let k = up.keycode;
    let o = spec_handle_tap(g, c, true, false, up);
    let pastes = c.paste == ShortcutModel::SingleKey(k) && g.paste_pending;
    assert(o.events =~= only_if(c.hold == ShortcutModel::SingleKey(k), ShortcutEvent::HoldRelease)
        + only_if(pastes, ShortcutEvent::PastePress));
}

/// Mouse button `b` going up: the hold button reports HoldRelease, then the
/// paste button pastes where a paste is pending; the button is swallowed
/// exactly where one of these happens, and the held keys stay.
pub proof fn lemma_button_up_reports(g: GrabModel, c: ConfigModel, b: u8, up: TapEvent)
    requires
        is_up_of(up, b),
    ensures
        ({
            let o = spec_handle_tap(g, c, true, false, up);
            let hold = c.hold == ShortcutModel::MouseButton(b);
            let pastes = c.paste == ShortcutModel::MouseButton(b) && g.paste_pending;
            &&& o.events == only_if(hold, ShortcutEvent::HoldRelease) + only_if(
                pastes,
                ShortcutEvent::PastePress,
            )
            &&& o.suppress == (hold || pastes)
            &&& o.state.pressed == g.pressed
            &&& o.state.paste_pending == (g.paste_pending && !pastes)
        }),
{
    let o = spec_handle_tap(g, c, true, false, up);
    let pastes = c.paste == ShortcutModel::MouseButton(b) && g.paste_pending;
    assert(o.events =~= only_if(c.hold == ShortcutModel::MouseButton(b), ShortcutEvent::HoldRelease)
        + only_if(pastes, ShortcutEvent::PastePress));
}

/// A notice that the system disabled the tap re-enables it and does nothing
/// else, whatever the settings and mode.
pub proof fn lemma_timeout_only_reenables(
    g: GrabModel,
    c: ConfigModel,
    enabled: bool,
    capture_mode: bool,
    ev: TapEvent,
)
    requires
        ev.event_type == EVENT_TAP_DISABLED_BY_TIMEOUT,
    ensures
        ({
            let o = spec_handle_tap(g, c, enabled, capture_mode, ev);
            &&& o.reenable_tap
            &&& !o.suppress
            &&& o.events.len() == 0
            &&& o.captured is None
            &&& o.state == g
        }),
{
}

/// Only the timeout notice re-enables the tap.
pub proof fn lemma_only_timeout_reenables(
    g: GrabModel,
    c: ConfigModel,
    enabled: bool,
    capture_mode: bool,
    ev: TapEvent,
)
    requires
        ev.event_type != EVENT_TAP_DISABLED_BY_TIMEOUT,
    ensures
        !spec_handle_tap(g, c, enabled, capture_mode, ev).reenable_tap,
{
}

/// In capture mode every event that is not a mouse button going down (nor
/// the timeout notice) is let through untouched.
pub proof fn lemma_capture_passes_other_events(
    g: GrabModel,
    c: ConfigModel,
    enabled: bool,
    ev: TapEvent,
)
    requires
        ev.event_type != EVENT_TAP_DISABLED_BY_TIMEOUT,
        ev.event_type != EVENT_LEFT_MOUSE_DOWN,
        ev.event_type != EVENT_RIGHT_MOUSE_DOWN,
        ev.event_type != EVENT_OTHER_MOUSE_DOWN,
    ensures
        ({
            let o = spec_handle_tap(g, c, enabled, true, ev);
            &&& !o.suppress
            &&& o.events.len() == 0
            &&& o.captured is None
            &&& o.state == g
        }),
{
}

} // verus!
