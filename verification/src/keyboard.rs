//! What a key press means to the locker, decided from the keysym the
//! keyboard layout gives it, the Ctrl modifier and the text it produces.

use vstd::prelude::*;
use vstd::string::StrSliceExecFns;

verus! {

/// X keysym values (X11 `keysymdef.h`) that the locker treats specially.
pub const KEY_BACKSPACE: u32 = 0xff08;
pub const KEY_RETURN: u32 = 0xff0d;
pub const KEY_PAUSE: u32 = 0xff13;
pub const KEY_SCROLL_LOCK: u32 = 0xff14;
pub const KEY_ESCAPE: u32 = 0xff1b;
pub const KEY_HOME: u32 = 0xff50;
pub const KEY_LEFT: u32 = 0xff51;
pub const KEY_UP: u32 = 0xff52;
pub const KEY_RIGHT: u32 = 0xff53;
pub const KEY_DOWN: u32 = 0xff54;
pub const KEY_PAGE_UP: u32 = 0xff55;
pub const KEY_PAGE_DOWN: u32 = 0xff56;
pub const KEY_END: u32 = 0xff57;
pub const KEY_PRINT: u32 = 0xff61;
pub const KEY_INSERT: u32 = 0xff63;
pub const KEY_MENU: u32 = 0xff67;
pub const KEY_NUM_LOCK: u32 = 0xff7f;
pub const KEY_KP_ENTER: u32 = 0xff8d;
pub const KEY_F1: u32 = 0xffbe;
pub const KEY_F12: u32 = 0xffc9;
pub const KEY_SHIFT_L: u32 = 0xffe1;
pub const KEY_SHIFT_R: u32 = 0xffe2;
pub const KEY_CONTROL_L: u32 = 0xffe3;
pub const KEY_CONTROL_R: u32 = 0xffe4;
pub const KEY_CAPS_LOCK: u32 = 0xffe5;
pub const KEY_META_L: u32 = 0xffe7;
pub const KEY_META_R: u32 = 0xffe8;
pub const KEY_ALT_L: u32 = 0xffe9;
pub const KEY_ALT_R: u32 = 0xffea;
pub const KEY_SUPER_L: u32 = 0xffeb;
pub const KEY_SUPER_R: u32 = 0xffec;
pub const KEY_DELETE: u32 = 0xffff;
pub const KEY_C: u32 = 0x0063;
pub const KEY_U: u32 = 0x0075;

/// Result of processing a key event.
#[derive(Debug, Clone, Copy, PartialEq, Eq, Structural)]
pub enum KeyResult {
    /// A printable character was typed
    Char(char),
    /// Backspace was pressed
    Backspace,
    /// Enter/Return was pressed (submit password)
    Enter,
    /// Escape was pressed (dev mode exit)
    Escape,
    /// Clear buffer (Ctrl+U)
    Clear,
    /// A modifier key was pressed (no visual feedback)
    Modifier,
    /// Key should be ignored (function keys, etc.)
    Ignored,
}

/// Modifier keys, which give no visual feedback.
pub open spec fn is_modifier_key(k: u32) -> bool {
    k == KEY_SHIFT_L || k == KEY_SHIFT_R || k == KEY_CONTROL_L || k == KEY_CONTROL_R || k
        == KEY_ALT_L || k == KEY_ALT_R || k == KEY_SUPER_L || k == KEY_SUPER_R || k == KEY_META_L
        || k == KEY_META_R || k == KEY_CAPS_LOCK || k == KEY_NUM_LOCK || k == KEY_SCROLL_LOCK
}

/// Function and navigation keys, which are ignored.
pub open spec fn is_function_or_navigation_key(k: u32) -> bool {
    (KEY_F1 <= k <= KEY_F12) || k == KEY_HOME || k == KEY_END || k == KEY_PAGE_UP || k
        == KEY_PAGE_DOWN || k == KEY_LEFT || k == KEY_RIGHT || k == KEY_UP || k == KEY_DOWN || k
        == KEY_INSERT || k == KEY_DELETE || k == KEY_PRINT || k == KEY_PAUSE || k == KEY_MENU
}

/// Unicode control characters (general category Cc).
pub open spec fn is_control_char(c: char) -> bool {
    (c as u32) <= 0x1f || (0x7f <= (c as u32) && (c as u32) <= 0x9f)
}

/// What a pressed key means: special keys first, then Ctrl shortcuts, then
/// the first character of the text it produces unless that is a control
/// character.
pub open spec fn key_result_for(keysym: u32, ctrl_active: bool, text: Seq<char>) -> KeyResult {
    if keysym == KEY_ESCAPE {
        KeyResult::Escape
    } else if keysym == KEY_RETURN || keysym == KEY_KP_ENTER {
        KeyResult::Enter
    } else if keysym == KEY_BACKSPACE {
        KeyResult::Backspace
    } else if is_modifier_key(keysym) {
        KeyResult::Modifier
    } else if is_function_or_navigation_key(keysym) {
        KeyResult::Ignored
    } else if ctrl_active && (keysym == KEY_U || keysym == KEY_C) {
        KeyResult::Clear
    } else if ctrl_active {
        KeyResult::Ignored
    } else if text.len() > 0 && !is_control_char(text[0]) {
        KeyResult::Char(text[0])
    } else {
        KeyResult::Ignored
    }
}

/// Whether `c` is a control character.
pub fn is_control(c: char) -> (r: bool)
    ensures
        r == is_control_char(c),
{
    let v: u32 = c as u32;
    v <= 0x1f || (0x7f <= v && v <= 0x9f)
}

/// Classifies a key press from its keysym, whether Ctrl is held, and the
/// UTF-8 text the layout produces for it.
pub fn classify_key(keysym: u32, ctrl_active: bool, text: &str) -> (r: KeyResult)
    ensures
        r == key_result_for(keysym, ctrl_active, text@),
        modifier_keysym(keysym) ==> r == KeyResult::Modifier,
        keysym == 0xff1b ==> r == KeyResult::Escape,
        keysym == 0xff0d || keysym == 0xff8d ==> r == KeyResult::Enter,
        keysym == 0xff08 ==> r == KeyResult::Backspace,
{
    proof {
        law_modifier_keys(keysym, ctrl_active, text@);
        law_special_keys(keysym, ctrl_active, text@);
    }
    if keysym == KEY_ESCAPE {
        return KeyResult::Escape;
    }
    if keysym == KEY_RETURN || keysym == KEY_KP_ENTER {
        return KeyResult::Enter;
    }
    if keysym == KEY_BACKSPACE {
        return KeyResult::Backspace;
    }
    if keysym == KEY_SHIFT_L || keysym == KEY_SHIFT_R || keysym == KEY_CONTROL_L || keysym
        == KEY_CONTROL_R || keysym == KEY_ALT_L || keysym == KEY_ALT_R || keysym == KEY_SUPER_L
        || keysym == KEY_SUPER_R || keysym == KEY_META_L || keysym == KEY_META_R || keysym
        == KEY_CAPS_LOCK || keysym == KEY_NUM_LOCK || keysym == KEY_SCROLL_LOCK {
        return KeyResult::Modifier;
    }
    if (KEY_F1 <= keysym && keysym <= KEY_F12) || keysym == KEY_HOME || keysym == KEY_END
        || keysym == KEY_PAGE_UP || keysym == KEY_PAGE_DOWN || keysym == KEY_LEFT || keysym
        == KEY_RIGHT || keysym == KEY_UP || keysym == KEY_DOWN || keysym == KEY_INSERT || keysym
        == KEY_DELETE || keysym == KEY_PRINT || keysym == KEY_PAUSE || keysym == KEY_MENU {
        return KeyResult::Ignored;
    }
    if ctrl_active && keysym == KEY_U {
        return KeyResult::Clear;
    }
    if ctrl_active && keysym == KEY_C {
        return KeyResult::Clear;
    }
    if ctrl_active {
        return KeyResult::Ignored;
    }
    if !text.is_empty() {
        let c = text.get_char(0);
        if is_control(c) {
            return KeyResult::Ignored;
        }
        return KeyResult::Char(c);
    }
    KeyResult::Ignored
}

/// The X keysyms of the modifier keys, by value: Shift_L, Shift_R,
/// Control_L, Control_R, Caps_Lock, Meta_L, Meta_R, Alt_L, Alt_R, Super_L,
/// Super_R, Num_Lock and Scroll_Lock. Shift_Lock (0xffe6) is not among them.
pub open spec fn modifier_keysym(k: u32) -> bool {
    ||| 0xffe1 <= k <= 0xffe5
    ||| 0xffe7 <= k <= 0xffec
    ||| k == 0xff7f
    ||| k == 0xff14
}

/// Every modifier key (Shift, Control, Alt, Super, Meta on either side, and
/// the three lock keys) is a modifier press, with or without Ctrl and
/// whatever text the layout gives it; no other keysym is.
pub proof fn law_modifier_keys(keysym: u32, ctrl_active: bool, text: Seq<char>)
    ensures
        modifier_keysym(keysym) ==> key_result_for(keysym, ctrl_active, text)
            == KeyResult::Modifier,
        key_result_for(keysym, ctrl_active, text) == KeyResult::Modifier ==> modifier_keysym(
            keysym,
        ),
{
}

/// Escape (0xff1b) exits, Return (0xff0d) and keypad Enter (0xff8d) submit,
/// BackSpace (0xff08) erases, whatever modifiers are held and whatever text
/// the layout gives the key; the function keys F1 to F12 (0xffbe to 0xffc9)
/// and the navigation keys are ignored.
pub proof fn law_special_keys(keysym: u32, ctrl_active: bool, text: Seq<char>)
    ensures
        keysym == 0xff1b <==> key_result_for(keysym, ctrl_active, text) == KeyResult::Escape,
        (keysym == 0xff0d || keysym == 0xff8d) <==> key_result_for(keysym, ctrl_active, text)
            == KeyResult::Enter,
        keysym == 0xff08 <==> key_result_for(keysym, ctrl_active, text) == KeyResult::Backspace,
        0xffbe <= keysym <= 0xffc9 ==> key_result_for(keysym, ctrl_active, text)
            == KeyResult::Ignored,
        (0xff50 <= keysym <= 0xff57 || keysym == 0xff61 || keysym == 0xff63 || keysym == 0xff67
            || keysym == 0xffff || keysym == 0xff13) ==> key_result_for(keysym, ctrl_active, text)
            == KeyResult::Ignored,
{
}

/// With Ctrl held, `u` (0x75) and `c` (0x63) clear the password; with Ctrl
/// held no other key does, and without it no key does.
pub proof fn law_ctrl_clears(keysym: u32, ctrl_active: bool, text: Seq<char>)
    ensures
        key_result_for(keysym, ctrl_active, text) == KeyResult::Clear <==> (ctrl_active && (
        keysym == 0x75 || keysym == 0x63)),
{
}

/// With Ctrl held, a key never types a character.
pub proof fn law_ctrl_never_types(keysym: u32, text: Seq<char>)
    ensures
        !(key_result_for(keysym, true, text) is Char),
{
}

/// A typed character is never a control character.
pub proof fn law_typed_chars_printable(keysym: u32, ctrl_active: bool, text: Seq<char>)
    ensures
        key_result_for(keysym, ctrl_active, text) matches KeyResult::Char(c) ==> !is_control_char(
            c,
        ),
{
}

} // verus!
