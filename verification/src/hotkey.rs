//! Parsing and validation of hotkey strings such as
//! "CommandOrControl+Shift+Space" or "F8".
//!
//! A hotkey string is a '+'-separated list of parts; each part, trimmed
//! and compared up to ASCII case, is either a modifier token or the key
//! itself (the last non-modifier part wins). Registration additionally
//! requires a non-shift modifier unless the key is a function key, because
//! plain keys and shift-only combinations are not delivered reliably as
//! global shortcuts.

use vstd::prelude::*;
use vstd::string::StrSliceExecFns;
use vstd::string::StringExecFns;

use crate::textutil::ascii_eq_ignore_case;
use crate::textutil::spec_ascii_eq_ignore_case;
use crate::textutil::trim_of;
use crate::textutil::trim_str;

verus! {

/// The modifier keys a hotkey holds.
#[derive(Debug, Clone, Copy, PartialEq, Eq, Structural)]
pub struct HotkeyModifiers {
    pub control: bool,
    pub shift: bool,
    pub alt: bool,
    pub meta: bool,
}

/// The non-modifier key of a hotkey.
#[derive(Debug, Clone, Copy, PartialEq, Eq, Structural)]
pub enum KeyCode {
    F1,
    F2,
    F3,
    F4,
    F5,
    F6,
    F7,
    F8,
    F9,
    F10,
    F11,
    F12,
    Space,
    Enter,
    Escape,
    Tab,
    Backspace,
    Delete,
    Insert,
    Home,
    End,
    PageUp,
    PageDown,
    ArrowUp,
    ArrowDown,
    ArrowLeft,
    ArrowRight,
    KeyA,
    KeyB,
    KeyC,
    KeyD,
    KeyE,
    KeyF,
    KeyG,
    KeyH,
    KeyI,
    KeyJ,
    KeyK,
    KeyL,
    KeyM,
    KeyN,
    KeyO,
    KeyP,
    KeyQ,
    KeyR,
    KeyS,
    KeyT,
    KeyU,
    KeyV,
    KeyW,
    KeyX,
    KeyY,
    KeyZ,
    Digit0,
    Digit1,
    Digit2,
    Digit3,
    Digit4,
    Digit5,
    Digit6,
    Digit7,
    Digit8,
    Digit9,
    Backquote,
    Minus,
    Equal,
    BracketLeft,
    BracketRight,
    Backslash,
    Semicolon,
    Quote,
    Comma,
    Period,
    Slash,
}

/// No modifier held.
pub open spec fn spec_no_modifiers() -> HotkeyModifiers {
    HotkeyModifiers { control: false, shift: false, alt: false, meta: false }
}

/// The index of the first '+' in the string, or -1 when there is none.
pub open spec fn spec_first_plus(s: Seq<char>) -> int
    decreases s.len(),
{
    if s.len() == 0 {
        -1
    } else if s[0] == '+' {
        0
    } else {
        let t = spec_first_plus(s.drop_first());
        if t < 0 {
            -1
        } else {
            t + 1
        }
    }
}

/// The '+'-separated parts of the string, empty parts kept.
pub open spec fn spec_split_plus(s: Seq<char>) -> Seq<Seq<char>>
    decreases s.len(),
{
    let i = spec_first_plus(s);
    if i < 0 || i >= s.len() {
        seq![s]
    } else {
        seq![s.take(i)] + spec_split_plus(s.skip(i + 1))
    }
}

proof fn lemma_first_plus_none(s: Seq<char>)
    requires
        forall|j: int| 0 <= j < s.len() ==> s[j] != '+',
    ensures
        spec_first_plus(s) == -1,
    decreases s.len(),
{
    if s.len() > 0 {
        assert(forall|j: int| 0 <= j < s.drop_first().len() ==> s.drop_first()[j] == s[j + 1]);
        lemma_first_plus_none(s.drop_first());
    }
}

proof fn lemma_first_plus_at(s: Seq<char>, i: int)
    requires
        0 <= i < s.len(),
        s[i] == '+',
        forall|j: int| 0 <= j < i ==> s[j] != '+',
    ensures
        spec_first_plus(s) == i,
    decreases i,
{
    if i > 0 {
        assert(forall|j: int| 0 <= j < s.drop_first().len() ==> s.drop_first()[j] == s[j + 1]);
        lemma_first_plus_at(s.drop_first(), i - 1);
    }
}

/// Split a string at every '+', keeping empty parts.
fn split_plus(s: &str) -> (parts: Vec<String>)
    ensures
        parts@.len() == spec_split_plus(s@).len(),
        forall|i: int| 0 <= i < parts@.len() ==> parts@[i]@ == spec_split_plus(s@)[i],
    decreases s@.len(),
{
    let len = s.unicode_len();
    let mut found: usize = len;
    let mut i: usize = 0;
    while i < len
        invariant
            i <= len,
            len == s@.len(),
            found == len || (found < i && s@[found as int] == '+' && (forall|j: int|
                0 <= j < found ==> s@[j] != '+')),
            found == len ==> forall|j: int| 0 <= j < i ==> s@[j] != '+',
        decreases len - i,
    {
        if found == len && s.get_char(i) == '+' {
            found = i;
        }
        i = i + 1;
    }
    if found == len {
        proof {
            lemma_first_plus_none(s@);
        }
        let mut parts: Vec<String> = Vec::new();
        parts.push(String::from_str(s));
        parts
    } else {
        proof {
            lemma_first_plus_at(s@, found as int);
        }
        let head = s.substring_char(0, found);
        let tail = s.substring_char(found + 1, len);
        proof {
            assert(tail@ =~= s@.skip(found + 1));
            assert(head@ =~= s@.take(found as int));
        }
        let mut parts: Vec<String> = Vec::new();
        parts.push(String::from_str(head));
        let mut rest = split_plus(tail);
        parts.append(&mut rest);
        proof {
            assert(forall|k: int|
                0 <= k < parts@.len() ==> parts@[k]@ == spec_split_plus(s@)[k]);
        }
        parts
    }
}

/// Whether a trimmed part names the control modifier.
pub open spec fn spec_is_ctrl_token(t: Seq<char>) -> bool {
    spec_ascii_eq_ignore_case(t, "ctrl"@) || spec_ascii_eq_ignore_case(t, "control"@)
}

/// Whether a trimmed part names the shift modifier.
pub open spec fn spec_is_shift_token(t: Seq<char>) -> bool {
    spec_ascii_eq_ignore_case(t, "shift"@)
}

/// Whether a trimmed part names the alt/option modifier.
pub open spec fn spec_is_alt_token(t: Seq<char>) -> bool {
    spec_ascii_eq_ignore_case(t, "alt"@) || spec_ascii_eq_ignore_case(t, "option"@)
}

/// Whether a trimmed part names the meta (command/windows/super) modifier.
pub open spec fn spec_is_meta_token(t: Seq<char>) -> bool {
    spec_ascii_eq_ignore_case(t, "meta"@) || spec_ascii_eq_ignore_case(t, "cmd"@)
        || spec_ascii_eq_ignore_case(t, "command"@) || spec_ascii_eq_ignore_case(t, "win"@)
        || spec_ascii_eq_ignore_case(t, "super"@)
}

/// Whether a trimmed part names the platform-dependent primary modifier
/// (meta on macOS, control elsewhere).
pub open spec fn spec_is_cmd_or_ctrl_token(t: Seq<char>) -> bool {
    spec_ascii_eq_ignore_case(t, "commandorcontrol"@) || spec_ascii_eq_ignore_case(t, "cmdorctrl"@)
}

/// Fold one trimmed part into the accumulated modifiers and key text.
pub open spec fn spec_apply_token(
    acc: (HotkeyModifiers, Seq<char>),
    t: Seq<char>,
    meta_for_primary: bool,
) -> (HotkeyModifiers, Seq<char>) {
    let (m, k) = acc;
    if spec_is_ctrl_token(t) {
        (HotkeyModifiers { control: true, ..m }, k)
    } else if spec_is_shift_token(t) {
        (HotkeyModifiers { shift: true, ..m }, k)
    } else if spec_is_alt_token(t) {
        (HotkeyModifiers { alt: true, ..m }, k)
    } else if spec_is_meta_token(t) {
        (HotkeyModifiers { meta: true, ..m }, k)
    } else if spec_is_cmd_or_ctrl_token(t) {
        if meta_for_primary {
            (HotkeyModifiers { meta: true, ..m }, k)
        } else {
            (HotkeyModifiers { control: true, ..m }, k)
        }
    } else {
        (m, t)
    }
}

/// Fold the trimmed parts, in order, into modifiers and key text. The key
/// text starts empty; the last non-modifier part wins.
pub open spec fn spec_accumulate_tokens(parts: Seq<Seq<char>>, meta_for_primary: bool) -> (
    HotkeyModifiers,
    Seq<char>,
)
    decreases parts.len(),
{
    if parts.len() == 0 {
        (spec_no_modifiers(), Seq::empty())
    } else {
        spec_apply_token(
            spec_accumulate_tokens(parts.drop_last(), meta_for_primary),
            trim_of(parts.last()),
            meta_for_primary,
        )
    }
}


/// The key a trimmed non-modifier part names, if any, compared up to
/// ASCII case.
pub open spec fn spec_key_code(k: Seq<char>) -> Option<KeyCode> {
    if spec_ascii_eq_ignore_case(k, "f1"@) {
        Some(KeyCode::F1)
    } else if spec_ascii_eq_ignore_case(k, "f2"@) {
        Some(KeyCode::F2)
    } else if spec_ascii_eq_ignore_case(k, "f3"@) {
        Some(KeyCode::F3)
    } else if spec_ascii_eq_ignore_case(k, "f4"@) {
        Some(KeyCode::F4)
    } else if spec_ascii_eq_ignore_case(k, "f5"@) {
        Some(KeyCode::F5)
    } else if spec_ascii_eq_ignore_case(k, "f6"@) {
        Some(KeyCode::F6)
    } else if spec_ascii_eq_ignore_case(k, "f7"@) {
        Some(KeyCode::F7)
    } else if spec_ascii_eq_ignore_case(k, "f8"@) {
        Some(KeyCode::F8)
    } else if spec_ascii_eq_ignore_case(k, "f9"@) {
        Some(KeyCode::F9)
    } else if spec_ascii_eq_ignore_case(k, "f10"@) {
        Some(KeyCode::F10)
    } else if spec_ascii_eq_ignore_case(k, "f11"@) {
        Some(KeyCode::F11)
    } else if spec_ascii_eq_ignore_case(k, "f12"@) {
        Some(KeyCode::F12)
    } else if spec_ascii_eq_ignore_case(k, "space"@) || spec_ascii_eq_ignore_case(k, " "@) {
        Some(KeyCode::Space)
    } else if spec_ascii_eq_ignore_case(k, "enter"@) || spec_ascii_eq_ignore_case(k, "return"@) {
        Some(KeyCode::Enter)
    } else if spec_ascii_eq_ignore_case(k, "escape"@) || spec_ascii_eq_ignore_case(k, "esc"@) {
        Some(KeyCode::Escape)
    } else if spec_ascii_eq_ignore_case(k, "tab"@) {
        Some(KeyCode::Tab)
    } else if spec_ascii_eq_ignore_case(k, "backspace"@) {
        Some(KeyCode::Backspace)
    } else if spec_ascii_eq_ignore_case(k, "delete"@) || spec_ascii_eq_ignore_case(k, "del"@) {
        Some(KeyCode::Delete)
    } else if spec_ascii_eq_ignore_case(k, "insert"@) || spec_ascii_eq_ignore_case(k, "ins"@) {
        Some(KeyCode::Insert)
    } else if spec_ascii_eq_ignore_case(k, "home"@) {
        Some(KeyCode::Home)
    } else if spec_ascii_eq_ignore_case(k, "end"@) {
        Some(KeyCode::End)
    } else if spec_ascii_eq_ignore_case(k, "pageup"@) || spec_ascii_eq_ignore_case(k, "pgup"@) {
        Some(KeyCode::PageUp)
    } else if spec_ascii_eq_ignore_case(k, "pagedown"@) || spec_ascii_eq_ignore_case(k, "pgdn"@) {
        Some(KeyCode::PageDown)
    } else if spec_ascii_eq_ignore_case(k, "up"@) || spec_ascii_eq_ignore_case(k, "arrowup"@) {
        Some(KeyCode::ArrowUp)
    } else if spec_ascii_eq_ignore_case(k, "down"@) || spec_ascii_eq_ignore_case(k, "arrowdown"@) {
        Some(KeyCode::ArrowDown)
    } else if spec_ascii_eq_ignore_case(k, "left"@) || spec_ascii_eq_ignore_case(k, "arrowleft"@) {
        Some(KeyCode::ArrowLeft)
    } else if spec_ascii_eq_ignore_case(k, "right"@) || spec_ascii_eq_ignore_case(k, "arrowright"@) {
        Some(KeyCode::ArrowRight)
    } else if spec_ascii_eq_ignore_case(k, "a"@) {
        Some(KeyCode::KeyA)
    } else if spec_ascii_eq_ignore_case(k, "b"@) {
        Some(KeyCode::KeyB)
    } else if spec_ascii_eq_ignore_case(k, "c"@) {
        Some(KeyCode::KeyC)
    } else if spec_ascii_eq_ignore_case(k, "d"@) {
        Some(KeyCode::KeyD)
    } else if spec_ascii_eq_ignore_case(k, "e"@) {
        Some(KeyCode::KeyE)
    } else if spec_ascii_eq_ignore_case(k, "f"@) {
        Some(KeyCode::KeyF)
    } else if spec_ascii_eq_ignore_case(k, "g"@) {
        Some(KeyCode::KeyG)
    } else if spec_ascii_eq_ignore_case(k, "h"@) {
        Some(KeyCode::KeyH)
    } else if spec_ascii_eq_ignore_case(k, "i"@) {
        Some(KeyCode::KeyI)
    } else if spec_ascii_eq_ignore_case(k, "j"@) {
        Some(KeyCode::KeyJ)
    } else if spec_ascii_eq_ignore_case(k, "k"@) {
        Some(KeyCode::KeyK)
    } else if spec_ascii_eq_ignore_case(k, "l"@) {
        Some(KeyCode::KeyL)
    } else if spec_ascii_eq_ignore_case(k, "m"@) {
        Some(KeyCode::KeyM)
    } else if spec_ascii_eq_ignore_case(k, "n"@) {
        Some(KeyCode::KeyN)
    } else if spec_ascii_eq_ignore_case(k, "o"@) {
        Some(KeyCode::KeyO)
    } else if spec_ascii_eq_ignore_case(k, "p"@) {
        Some(KeyCode::KeyP)
    } else if spec_ascii_eq_ignore_case(k, "q"@) {
        Some(KeyCode::KeyQ)
    } else if spec_ascii_eq_ignore_case(k, "r"@) {
        Some(KeyCode::KeyR)
    } else if spec_ascii_eq_ignore_case(k, "s"@) {
        Some(KeyCode::KeyS)
    } else if spec_ascii_eq_ignore_case(k, "t"@) {
        Some(KeyCode::KeyT)
    } else if spec_ascii_eq_ignore_case(k, "u"@) {
        Some(KeyCode::KeyU)
    } else if spec_ascii_eq_ignore_case(k, "v"@) {
        Some(KeyCode::KeyV)
    } else if spec_ascii_eq_ignore_case(k, "w"@) {
        Some(KeyCode::KeyW)
    } else if spec_ascii_eq_ignore_case(k, "x"@) {
        Some(KeyCode::KeyX)
    } else if spec_ascii_eq_ignore_case(k, "y"@) {
        Some(KeyCode::KeyY)
    } else if spec_ascii_eq_ignore_case(k, "z"@) {
        Some(KeyCode::KeyZ)
    } else if spec_ascii_eq_ignore_case(k, "0"@) {
        Some(KeyCode::Digit0)
    } else if spec_ascii_eq_ignore_case(k, "1"@) {
        Some(KeyCode::Digit1)
    } else if spec_ascii_eq_ignore_case(k, "2"@) {
        Some(KeyCode::Digit2)
    } else if spec_ascii_eq_ignore_case(k, "3"@) {
        Some(KeyCode::Digit3)
    } else if spec_ascii_eq_ignore_case(k, "4"@) {
        Some(KeyCode::Digit4)
    } else if spec_ascii_eq_ignore_case(k, "5"@) {
        Some(KeyCode::Digit5)
    } else if spec_ascii_eq_ignore_case(k, "6"@) {
        Some(KeyCode::Digit6)
    } else if spec_ascii_eq_ignore_case(k, "7"@) {
        Some(KeyCode::Digit7)
    } else if spec_ascii_eq_ignore_case(k, "8"@) {
        Some(KeyCode::Digit8)
    } else if spec_ascii_eq_ignore_case(k, "9"@) {
        Some(KeyCode::Digit9)
    } else if spec_ascii_eq_ignore_case(k, "`"@) || spec_ascii_eq_ignore_case(k, "backquote"@) {
        Some(KeyCode::Backquote)
    } else if spec_ascii_eq_ignore_case(k, "-"@) || spec_ascii_eq_ignore_case(k, "minus"@) {
        Some(KeyCode::Minus)
    } else if spec_ascii_eq_ignore_case(k, "="@) || spec_ascii_eq_ignore_case(k, "equal"@) {
        Some(KeyCode::Equal)
    } else if spec_ascii_eq_ignore_case(k, "["@) || spec_ascii_eq_ignore_case(k, "bracketleft"@) {
        Some(KeyCode::BracketLeft)
    } else if spec_ascii_eq_ignore_case(k, "]"@) || spec_ascii_eq_ignore_case(k, "bracketright"@) {
        Some(KeyCode::BracketRight)
    } else if spec_ascii_eq_ignore_case(k, "\\"@) || spec_ascii_eq_ignore_case(k, "backslash"@) {
        Some(KeyCode::Backslash)
    } else if spec_ascii_eq_ignore_case(k, ";"@) || spec_ascii_eq_ignore_case(k, "semicolon"@) {
        Some(KeyCode::Semicolon)
    } else if spec_ascii_eq_ignore_case(k, "'"@) || spec_ascii_eq_ignore_case(k, "quote"@) {
        Some(KeyCode::Quote)
    } else if spec_ascii_eq_ignore_case(k, ","@) || spec_ascii_eq_ignore_case(k, "comma"@) {
        Some(KeyCode::Comma)
    } else if spec_ascii_eq_ignore_case(k, "."@) || spec_ascii_eq_ignore_case(k, "period"@) {
        Some(KeyCode::Period)
    } else if spec_ascii_eq_ignore_case(k, "/"@) || spec_ascii_eq_ignore_case(k, "slash"@) {
        Some(KeyCode::Slash)
    } else {
        None
    }
}

/// Look a key name up, compared up to ASCII case.
pub fn key_code_for(k: &str) -> (r: Option<KeyCode>)
    ensures
        r == spec_key_code(k@),
{
    if ascii_eq_ignore_case(k, "f1") {
        Some(KeyCode::F1)
    } else if ascii_eq_ignore_case(k, "f2") {
        Some(KeyCode::F2)
    } else if ascii_eq_ignore_case(k, "f3") {
        Some(KeyCode::F3)
    } else if ascii_eq_ignore_case(k, "f4") {
        Some(KeyCode::F4)
    } else if ascii_eq_ignore_case(k, "f5") {
        Some(KeyCode::F5)
    } else if ascii_eq_ignore_case(k, "f6") {
        Some(KeyCode::F6)
    } else if ascii_eq_ignore_case(k, "f7") {
        Some(KeyCode::F7)
    } else if ascii_eq_ignore_case(k, "f8") {
        Some(KeyCode::F8)
    } else if ascii_eq_ignore_case(k, "f9") {
        Some(KeyCode::F9)
    } else if ascii_eq_ignore_case(k, "f10") {
        Some(KeyCode::F10)
    } else if ascii_eq_ignore_case(k, "f11") {
        Some(KeyCode::F11)
    } else if ascii_eq_ignore_case(k, "f12") {
        Some(KeyCode::F12)
    } else if ascii_eq_ignore_case(k, "space") || ascii_eq_ignore_case(k, " ") {
        Some(KeyCode::Space)
    } else if ascii_eq_ignore_case(k, "enter") || ascii_eq_ignore_case(k, "return") {
        Some(KeyCode::Enter)
    } else if ascii_eq_ignore_case(k, "escape") || ascii_eq_ignore_case(k, "esc") {
        Some(KeyCode::Escape)
    } else if ascii_eq_ignore_case(k, "tab") {
        Some(KeyCode::Tab)
    } else if ascii_eq_ignore_case(k, "backspace") {
        Some(KeyCode::Backspace)
    } else if ascii_eq_ignore_case(k, "delete") || ascii_eq_ignore_case(k, "del") {
        Some(KeyCode::Delete)
    } else if ascii_eq_ignore_case(k, "insert") || ascii_eq_ignore_case(k, "ins") {
        Some(KeyCode::Insert)
    } else if ascii_eq_ignore_case(k, "home") {
        Some(KeyCode::Home)
    } else if ascii_eq_ignore_case(k, "end") {
        Some(KeyCode::End)
    } else if ascii_eq_ignore_case(k, "pageup") || ascii_eq_ignore_case(k, "pgup") {
        Some(KeyCode::PageUp)
    } else if ascii_eq_ignore_case(k, "pagedown") || ascii_eq_ignore_case(k, "pgdn") {
        Some(KeyCode::PageDown)
    } else if ascii_eq_ignore_case(k, "up") || ascii_eq_ignore_case(k, "arrowup") {
        Some(KeyCode::ArrowUp)
    } else if ascii_eq_ignore_case(k, "down") || ascii_eq_ignore_case(k, "arrowdown") {
        Some(KeyCode::ArrowDown)
    } else if ascii_eq_ignore_case(k, "left") || ascii_eq_ignore_case(k, "arrowleft") {
        Some(KeyCode::ArrowLeft)
    } else if ascii_eq_ignore_case(k, "right") || ascii_eq_ignore_case(k, "arrowright") {
        Some(KeyCode::ArrowRight)
    } else if ascii_eq_ignore_case(k, "a") {
        Some(KeyCode::KeyA)
    } else if ascii_eq_ignore_case(k, "b") {
        Some(KeyCode::KeyB)
    } else if ascii_eq_ignore_case(k, "c") {
        Some(KeyCode::KeyC)
    } else if ascii_eq_ignore_case(k, "d") {
        Some(KeyCode::KeyD)
    } else if ascii_eq_ignore_case(k, "e") {
        Some(KeyCode::KeyE)
    } else if ascii_eq_ignore_case(k, "f") {
        Some(KeyCode::KeyF)
    } else if ascii_eq_ignore_case(k, "g") {
        Some(KeyCode::KeyG)
    } else if ascii_eq_ignore_case(k, "h") {
        Some(KeyCode::KeyH)
    } else if ascii_eq_ignore_case(k, "i") {
        Some(KeyCode::KeyI)
    } else if ascii_eq_ignore_case(k, "j") {
        Some(KeyCode::KeyJ)
    } else if ascii_eq_ignore_case(k, "k") {
        Some(KeyCode::KeyK)
    } else if ascii_eq_ignore_case(k, "l") {
        Some(KeyCode::KeyL)
    } else if ascii_eq_ignore_case(k, "m") {
        Some(KeyCode::KeyM)
    } else if ascii_eq_ignore_case(k, "n") {
        Some(KeyCode::KeyN)
    } else if ascii_eq_ignore_case(k, "o") {
        Some(KeyCode::KeyO)
    } else if ascii_eq_ignore_case(k, "p") {
        Some(KeyCode::KeyP)
    } else if ascii_eq_ignore_case(k, "q") {
        Some(KeyCode::KeyQ)
    } else if ascii_eq_ignore_case(k, "r") {
        Some(KeyCode::KeyR)
    } else if ascii_eq_ignore_case(k, "s") {
        Some(KeyCode::KeyS)
    } else if ascii_eq_ignore_case(k, "t") {
        Some(KeyCode::KeyT)
    } else if ascii_eq_ignore_case(k, "u") {
        Some(KeyCode::KeyU)
    } else if ascii_eq_ignore_case(k, "v") {
        Some(KeyCode::KeyV)
    } else if ascii_eq_ignore_case(k, "w") {
        Some(KeyCode::KeyW)
    } else if ascii_eq_ignore_case(k, "x") {
        Some(KeyCode::KeyX)
    } else if ascii_eq_ignore_case(k, "y") {
        Some(KeyCode::KeyY)
    } else if ascii_eq_ignore_case(k, "z") {
        Some(KeyCode::KeyZ)
    } else if ascii_eq_ignore_case(k, "0") {
        Some(KeyCode::Digit0)
    } else if ascii_eq_ignore_case(k, "1") {
        Some(KeyCode::Digit1)
    } else if ascii_eq_ignore_case(k, "2") {
        Some(KeyCode::Digit2)
    } else if ascii_eq_ignore_case(k, "3") {
        Some(KeyCode::Digit3)
    } else if ascii_eq_ignore_case(k, "4") {
        Some(KeyCode::Digit4)
    } else if ascii_eq_ignore_case(k, "5") {
        Some(KeyCode::Digit5)
    } else if ascii_eq_ignore_case(k, "6") {
        Some(KeyCode::Digit6)
    } else if ascii_eq_ignore_case(k, "7") {
        Some(KeyCode::Digit7)
    } else if ascii_eq_ignore_case(k, "8") {
        Some(KeyCode::Digit8)
    } else if ascii_eq_ignore_case(k, "9") {
        Some(KeyCode::Digit9)
    } else if ascii_eq_ignore_case(k, "`") || ascii_eq_ignore_case(k, "backquote") {
        Some(KeyCode::Backquote)
    } else if ascii_eq_ignore_case(k, "-") || ascii_eq_ignore_case(k, "minus") {
        Some(KeyCode::Minus)
    } else if ascii_eq_ignore_case(k, "=") || ascii_eq_ignore_case(k, "equal") {
        Some(KeyCode::Equal)
    } else if ascii_eq_ignore_case(k, "[") || ascii_eq_ignore_case(k, "bracketleft") {
        Some(KeyCode::BracketLeft)
    } else if ascii_eq_ignore_case(k, "]") || ascii_eq_ignore_case(k, "bracketright") {
        Some(KeyCode::BracketRight)
    } else if ascii_eq_ignore_case(k, "\\") || ascii_eq_ignore_case(k, "backslash") {
        Some(KeyCode::Backslash)
    } else if ascii_eq_ignore_case(k, ";") || ascii_eq_ignore_case(k, "semicolon") {
        Some(KeyCode::Semicolon)
    } else if ascii_eq_ignore_case(k, "'") || ascii_eq_ignore_case(k, "quote") {
        Some(KeyCode::Quote)
    } else if ascii_eq_ignore_case(k, ",") || ascii_eq_ignore_case(k, "comma") {
        Some(KeyCode::Comma)
    } else if ascii_eq_ignore_case(k, ".") || ascii_eq_ignore_case(k, "period") {
        Some(KeyCode::Period)
    } else if ascii_eq_ignore_case(k, "/") || ascii_eq_ignore_case(k, "slash") {
        Some(KeyCode::Slash)
    } else {
        None
    }
}

/// Parse a hotkey string into its modifiers and key. `meta_for_primary`
/// says what the platform-dependent "CommandOrControl" token means: the
/// meta key (macOS) or the control key (elsewhere). Fails, with the
/// message the user sees, when no part names a known key.
pub fn parse_hotkey(hotkey: &str, meta_for_primary: bool) -> (r: Result<
    (HotkeyModifiers, KeyCode),
    String,
>)
    ensures
        ({
            let acc = spec_accumulate_tokens(spec_split_plus(hotkey@), meta_for_primary);
            match spec_key_code(acc.1) {
                Some(code) => r == Ok::<(HotkeyModifiers, KeyCode), String>((acc.0, code)),
                None => r matches Err(e) && e@ == "Unknown key: "@ + acc.1,
            }
        }),
{
    let parts = split_plus(hotkey);
    let ghost parts_view = parts@.map_values(|p: String| p@);
    proof {
        assert(parts_view =~= spec_split_plus(hotkey@));
    }
    let mut mods = HotkeyModifiers { control: false, shift: false, alt: false, meta: false };
    let mut key = String::new();
    let mut i: usize = 0;
    while i < parts.len()
        invariant
            i <= parts@.len(),
            parts_view == spec_split_plus(hotkey@),
            parts_view.len() == parts@.len(),
            forall|j: int| 0 <= j < parts@.len() ==> parts_view[j] == parts@[j]@,
            ({
                let acc = spec_accumulate_tokens(parts_view.take(i as int), meta_for_primary);
                mods == acc.0 && key@ == acc.1
            }),
        decreases parts@.len() - i,
    {
        let t = trim_str(parts[i].as_str());
        if ascii_eq_ignore_case(t, "ctrl") || ascii_eq_ignore_case(t, "control") {
            mods.control = true;
        } else if ascii_eq_ignore_case(t, "shift") {
            mods.shift = true;
        } else if ascii_eq_ignore_case(t, "alt") || ascii_eq_ignore_case(t, "option") {
            mods.alt = true;
        } else if ascii_eq_ignore_case(t, "meta") || ascii_eq_ignore_case(t, "cmd")
            || ascii_eq_ignore_case(t, "command") || ascii_eq_ignore_case(t, "win")
            || ascii_eq_ignore_case(t, "super") {
            mods.meta = true;
        } else if ascii_eq_ignore_case(t, "commandorcontrol") || ascii_eq_ignore_case(
            t,
            "cmdorctrl",
        ) {
            if meta_for_primary {
                mods.meta = true;
            } else {
                mods.control = true;
            }
        } else {
            key = String::from_str(t);
        }
        proof {
            assert(parts_view.take(i + 1).drop_last() =~= parts_view.take(i as int));
            assert(parts_view.take(i + 1).last() == parts_view[i as int]);
        }
        i = i + 1;
    }
    proof {
        assert(parts_view.take(parts@.len() as int) =~= parts_view);
    }
    let code = key_code_for(key.as_str());
    match code {
        Some(c) => Ok((mods, c)),
        None => Err(String::from_str("Unknown key: ").concat(key.as_str())),
    }
}

/// Whether the key is one of the function keys F1-F12.
pub open spec fn spec_is_function_key(c: KeyCode) -> bool {
    c == KeyCode::F1 || c == KeyCode::F2 || c == KeyCode::F3 || c == KeyCode::F4 || c
        == KeyCode::F5 || c == KeyCode::F6 || c == KeyCode::F7 || c == KeyCode::F8 || c
        == KeyCode::F9 || c == KeyCode::F10 || c == KeyCode::F11 || c == KeyCode::F12
}

/// Whether a hotkey can be registered as a global shortcut: plain keys and
/// shift-only combinations are not delivered reliably, so a non-shift
/// modifier is required unless the key is a function key.
pub open spec fn spec_hotkey_allowed(m: HotkeyModifiers, c: KeyCode) -> bool {
    spec_is_function_key(c) || m.control || m.alt || m.meta
}

/// Check a parsed hotkey against the registration rule, with the message
/// the user sees when it is rejected.
pub fn validate_hotkey(modifiers: HotkeyModifiers, key_code: KeyCode) -> (r: Result<(), String>)
    ensures
        spec_hotkey_allowed(modifiers, key_code) ==> r is Ok,
        !spec_hotkey_allowed(modifiers, key_code) ==> (r matches Err(e) && e@
            == "Hotkey must include Command/Ctrl/Alt (or use F1-F12). Example: CommandOrControl+Shift+Space"@),
{
    let has_non_shift_modifier = modifiers.control || modifiers.alt || modifiers.meta;
    let is_shift_only = modifiers.shift && !modifiers.control && !modifiers.alt && !modifiers.meta;
    let is_function_key = match key_code {
        KeyCode::F1 | KeyCode::F2 | KeyCode::F3 | KeyCode::F4 | KeyCode::F5 | KeyCode::F6
        | KeyCode::F7 | KeyCode::F8 | KeyCode::F9 | KeyCode::F10 | KeyCode::F11
        | KeyCode::F12 => true,
        _ => false,
    };
    if !is_function_key && (!has_non_shift_modifier || is_shift_only) {
        Err(
            String::from_str(
                "Hotkey must include Command/Ctrl/Alt (or use F1-F12). Example: CommandOrControl+Shift+Space",
            ),
        )
    } else {
        Ok(())
    }
}

} // verus!
