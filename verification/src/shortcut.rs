//! Shortcut strings as the settings store them ("key:Alt_R", "mouse:back",
//! "combo:Control_L+space"), what they parse to, and how they are shown.
use vstd::prelude::*;

use crate::keys::{
    button_code_from_name, button_name_from_code, key_code_from_name, spec_button_code,
    spec_button_name, spec_key_code,
};
use crate::text::{
    ascii_upper, has_prefix, is_single_ascii, join_with, lemma_one_byte_iff_single_ascii, push_char, split_on, split_plus,
    str_eq, str_views, strip_prefix, upper_ascii_char,
};

verus! {

/// What the grabber reports to the app.
#[derive(Debug, Clone, Copy, PartialEq, Eq, Structural)]
pub enum ShortcutEvent {
    HoldPress,
    HoldRelease,
    TogglePress,
    PastePress,
}

/// A shortcut setting, parsed.
#[derive(Debug, PartialEq, Eq)]
pub enum ParsedShortcut {
    Unset,
    SingleKey(u16),
    MouseButton(u8),
    Combo(Vec<u16>),
}

/// The value of a [`ParsedShortcut`], with the keys of a combination as a sequence.
pub enum ShortcutModel {
    Unset,
    SingleKey(u16),
    MouseButton(u8),
    Combo(Seq<u16>),
}

impl View for ParsedShortcut {
    type V = ShortcutModel;

    open spec fn view(&self) -> ShortcutModel {
        match self {
            ParsedShortcut::Unset => ShortcutModel::Unset,
            ParsedShortcut::SingleKey(k) => ShortcutModel::SingleKey(*k),
            ParsedShortcut::MouseButton(b) => ShortcutModel::MouseButton(*b),
            ParsedShortcut::Combo(keys) => ShortcutModel::Combo(keys@),
        }
    }
}

impl Clone for ParsedShortcut {
    fn clone(&self) -> (r: Self)
        ensures
            r@ == self@,
    {
        match self {
            ParsedShortcut::Unset => ParsedShortcut::Unset,
            ParsedShortcut::SingleKey(k) => ParsedShortcut::SingleKey(*k),
            ParsedShortcut::MouseButton(b) => ParsedShortcut::MouseButton(*b),
            ParsedShortcut::Combo(keys) => ParsedShortcut::Combo(keys.clone()),
        }
    }
}

impl Default for ParsedShortcut {
    fn default() -> (r: Self)
        ensures
            r@ == ShortcutModel::Unset,
    {
        ParsedShortcut::Unset
    }
}

/// The three shortcuts: hold to record, toggle recording, paste the last text.
#[derive(Debug, PartialEq, Eq)]
pub struct ShortcutConfig {
    pub hold: ParsedShortcut,
    pub toggle: ParsedShortcut,
    pub paste: ParsedShortcut,
}

/// The value of a [`ShortcutConfig`].
pub struct ConfigModel {
    pub hold: ShortcutModel,
    pub toggle: ShortcutModel,
    pub paste: ShortcutModel,
}

impl View for ShortcutConfig {
    type V = ConfigModel;

    open spec fn view(&self) -> ConfigModel {
        ConfigModel { hold: self.hold@, toggle: self.toggle@, paste: self.paste@ }
    }
}

impl Clone for ShortcutConfig {
    fn clone(&self) -> (r: Self)
        ensures
            r@ == self@,
    {
        ShortcutConfig {
            hold: self.hold.clone(),
            toggle: self.toggle.clone(),
            paste: self.paste.clone(),
        }
    }
}

impl Default for ShortcutConfig {
    fn default() -> (r: Self)
        ensures
            r@ == (ConfigModel {
                hold: ShortcutModel::Unset,
                toggle: ShortcutModel::Unset,
                paste: ShortcutModel::Unset,
            }),
    {
        ShortcutConfig {
            hold: ParsedShortcut::Unset,
            toggle: ParsedShortcut::Unset,
            paste: ParsedShortcut::Unset,
        }
    }
}

/// The key codes of the pieces that name a key, in order; the others are skipped.
pub open spec fn key_codes_of(names: Seq<Seq<char>>) -> Seq<u16>
    decreases names.len(),
{
    if names.len() == 0 {
        Seq::<u16>::empty()
    } else {
        let init = key_codes_of(names.drop_last());
        match spec_key_code(names.last()) {
            Some(k) => init.push(k),
            None => init,
        }
    }
}

/// What a shortcut string parses to. "mouse:NAME" is a mouse button;
/// "combo:A+B+..." is a combination of the keys among A, B, ... that have
/// names, where there are at least two of them; "key:NAME" is a single key.
/// Anything else, and any of these whose names are not known, is no shortcut.
pub open spec fn spec_parse_shortcut(s: Seq<char>) -> ShortcutModel {
    if s.len() == 0 {
        ShortcutModel::Unset
    } else if has_prefix(s, "mouse:"@) {
        match spec_button_code(s.skip("mouse:"@.len() as int)) {
            Some(b) => ShortcutModel::MouseButton(b),
            None => ShortcutModel::Unset,
        }
    } else if has_prefix(s, "combo:"@) {
        let keys = key_codes_of(split_on(s.skip("combo:"@.len() as int), '+'));
        if keys.len() >= 2 {
            ShortcutModel::Combo(keys)
        } else {
            ShortcutModel::Unset
        }
    } else if has_prefix(s, "key:"@) {
        match spec_key_code(s.skip("key:"@.len() as int)) {
            Some(k) => ShortcutModel::SingleKey(k),
            None => ShortcutModel::Unset,
        }
    } else {
        ShortcutModel::Unset
    }
}

/// The shortcut string of a mouse button.
pub open spec fn spec_button_to_name(code: u8) -> Seq<char> {
    "mouse:"@ + spec_button_name(code)
}

/// How a key name is shown: the modifiers and a few named keys by their
/// label, a single one-byte character in upper case, anything else as it is.
pub open spec fn spec_key_display_name(name: Seq<char>) -> Seq<char> {
    if name == "Alt_L"@ {
        "Left Option \u{2325}"@
    } else if name == "Alt_R"@ {
        "Right Option \u{2325}"@
    } else if name == "Shift_L"@ {
        "Left Shift \u{21e7}"@
    } else if name == "Shift_R"@ {
        "Right Shift \u{21e7}"@
    } else if name == "Control_L"@ {
        "Left Control \u{2303}"@
    } else if name == "Control_R"@ {
        "Right Control \u{2303}"@
    } else if name == "Super_L"@ {
        "Left Command \u{2318}"@
    } else if name == "Super_R"@ {
        "Right Command \u{2318}"@
    } else if name == "space"@ {
        "Space"@
    } else if name == "Return"@ {
        "Return \u{21a9}"@
    } else if name == "Escape"@ {
        "Esc"@
    } else if name == "BackSpace"@ {
        "Delete \u{232b}"@
    } else if name == "Tab"@ {
        "Tab \u{21e5}"@
    } else if is_single_ascii(name) {
        seq![ascii_upper(name[0])]
    } else {
        name
    }
}

/// How a mouse button name is shown; an unknown name as it is.
pub open spec fn spec_mouse_display(name: Seq<char>) -> Seq<char> {
    if name == "left"@ {
        "Left Click"@
    } else if name == "right"@ {
        "Right Click"@
    } else if name == "middle"@ {
        "Middle Click"@
    } else if name == "back"@ {
        "Back Button"@
    } else if name == "forward"@ {
        "Forward Button"@
    } else {
        name
    }
}

/// How a shortcut string is shown in the settings.
pub open spec fn spec_shortcut_display(s: Seq<char>) -> Seq<char> {
    if s.len() == 0 {
        "Not set"@
    } else if has_prefix(s, "mouse:"@) {
        spec_mouse_display(s.skip("mouse:"@.len() as int))
    } else if has_prefix(s, "combo:"@) {
        join_with(
            split_on(s.skip("combo:"@.len() as int), '+').map_values(
                |n: Seq<char>| spec_key_display_name(n),
            ),
            " + "@,
        )
    } else if has_prefix(s, "key:"@) {
        spec_key_display_name(s.skip("key:"@.len() as int))
    } else {
        s
    }
}

/// The key codes of the names in `names`, skipping those that name no key.
fn key_codes_of_names(names: &Vec<&str>) -> (r: Vec<u16>)
    ensures
        r@ == key_codes_of(str_views(names@)),
{
    let mut keys: Vec<u16> = Vec::new();
    let mut i: usize = 0;
    assert(str_views(names@).take(0) =~= Seq::<Seq<char>>::empty());
    while i < names.len()
        invariant
            i <= names.len(),
            keys@ == key_codes_of(str_views(names@).take(i as int)),
        decreases names.len() - i,
    {
        let ghost views = str_views(names@);
        proof {
            assert(views.take(i + 1).drop_last() =~= views.take(i as int));
            assert(views.take(i + 1).last() == names@[i as int]@);
        }
        match key_code_from_name(names[i]) {
            Some(k) => {
                keys.push(k);
            },
            None => {},
        }
        i = i + 1;
    }
    assert(str_views(names@).take(names.len() as int) =~= str_views(names@));
    keys
}

/// Parses a shortcut string.
pub fn parse_shortcut(s: &str) -> (r: ParsedShortcut)
    ensures
        r@ == spec_parse_shortcut(s@),
{
    if s.is_empty() {
        return ParsedShortcut::Unset;
    }
    if let Some(mouse) = strip_prefix(s, "mouse:") {
        return match button_code_from_name(mouse) {
            Some(b) => ParsedShortcut::MouseButton(b),
            None => ParsedShortcut::Unset,
        };
    }
    if let Some(combo_str) = strip_prefix(s, "combo:") {
        let names = split_plus(combo_str);
        let keys = key_codes_of_names(&names);
        if keys.len() >= 2 {
            return ParsedShortcut::Combo(keys);
        }
        return ParsedShortcut::Unset;
    }
    if let Some(key_name) = strip_prefix(s, "key:") {
        return match key_code_from_name(key_name) {
            Some(k) => ParsedShortcut::SingleKey(k),
            None => ParsedShortcut::Unset,
        };
    }
    ParsedShortcut::Unset
}

/// The shortcut string of a mouse button: "mouse:" and the button's name.
pub fn button_to_name(code: u8) -> (r: String)
    ensures
        r@ == spec_button_to_name(code),
{
    let mut r = String::from_str("mouse:");
    r.append(button_name_from_code(code));
    r
}

/// How a key name is shown.
pub fn key_display_name(name: &str) -> (r: String)
    ensures
        r@ == spec_key_display_name(name@),
{
    proof {
        lemma_one_byte_iff_single_ascii(name@);
    }
    if str_eq(name, "Alt_L") {
        String::from_str("Left Option \u{2325}")
    } else if str_eq(name, "Alt_R") {
        String::from_str("Right Option \u{2325}")
    } else if str_eq(name, "Shift_L") {
        String::from_str("Left Shift \u{21e7}")
    } else if str_eq(name, "Shift_R") {
        String::from_str("Right Shift \u{21e7}")
    } else if str_eq(name, "Control_L") {
        String::from_str("Left Control \u{2303}")
    } else if str_eq(name, "Control_R") {
        String::from_str("Right Control \u{2303}")
    } else if str_eq(name, "Super_L") {
        String::from_str("Left Command \u{2318}")
    } else if str_eq(name, "Super_R") {
        String::from_str("Right Command \u{2318}")
    } else if str_eq(name, "space") {
        String::from_str("Space")
    } else if str_eq(name, "Return") {
        String::from_str("Return \u{21a9}")
    } else if str_eq(name, "Escape") {
        String::from_str("Esc")
    } else if str_eq(name, "BackSpace") {
        String::from_str("Delete \u{232b}")
    } else if str_eq(name, "Tab") {
        String::from_str("Tab \u{21e5}")
    } else if name.as_bytes().len() == 1 {
        let mut r = String::new();
        push_char(&mut r, upper_ascii_char(name.get_char(0)));
        assert(r@ =~= seq![ascii_upper(name@[0])]);
        r
    } else {
        String::from_str(name)
    }
}

/// How a mouse button name is shown.
fn mouse_display(name: &str) -> (r: String)
    ensures
        r@ == spec_mouse_display(name@),
{
    if str_eq(name, "left") {
        String::from_str("Left Click")
    } else if str_eq(name, "right") {
        String::from_str("Right Click")
    } else if str_eq(name, "middle") {
        String::from_str("Middle Click")
    } else if str_eq(name, "back") {
        String::from_str("Back Button")
    } else if str_eq(name, "forward") {
        String::from_str("Forward Button")
    } else {
        String::from_str(name)
    }
}

/// The display names of the key names in `names`, joined with " + ".
fn join_key_display_names(names: &Vec<&str>) -> (r: String)
    ensures
        r@ == join_with(
            str_views(names@).map_values(|n: Seq<char>| spec_key_display_name(n)),
            " + "@,
        ),
{
    let ghost shown = str_views(names@).map_values(|n: Seq<char>| spec_key_display_name(n));
    let mut r = String::new();
    let mut i: usize = 0;
    assert(shown.take(0) =~= Seq::<Seq<char>>::empty());
    while i < names.len()
        invariant
            i <= names.len(),
            shown == str_views(names@).map_values(|n: Seq<char>| spec_key_display_name(n)),
            r@ == join_with(shown.take(i as int), " + "@),
        decreases names.len() - i,
    {
        let part = key_display_name(names[i]);
        proof {
            assert(shown.take(i + 1).drop_last() =~= shown.take(i as int));
            assert(shown.take(i + 1).last() == part@);
        }
        if i == 0 {
            r.append(part.as_str());
            assert(r@ =~= join_with(shown.take(1), " + "@));
        } else {
            r.append(" + ");
            r.append(part.as_str());
            assert(r@ =~= join_with(shown.take(i + 1), " + "@));
        }
        i = i + 1;
    }
    assert(shown.take(names.len() as int) =~= shown);
    r
}

/// How a shortcut string is shown in the settings.
pub fn shortcut_display(s: &str) -> (r: String)
    ensures
        r@ == spec_shortcut_display(s@),
{
    if s.is_empty() {
        return String::from_str("Not set");
    }
    if let Some(mouse) = strip_prefix(s, "mouse:") {
        return mouse_display(mouse);
    }
    if let Some(combo) = strip_prefix(s, "combo:") {
        let names = split_plus(combo);
        return join_key_display_names(&names);
    }
    if let Some(key_name) = strip_prefix(s, "key:") {
        return key_display_name(key_name);
    }
    String::from_str(s)
}

} // verus!
