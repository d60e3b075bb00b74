//! Key classification for the hook callback.
//!
//! Three questions must be kept apart: is this the target's **send key**
//! (Enter or Ctrl+Enter, by configuration), is it a **content key** (it
//! changes the draft, so the draft epoch advances), and is it an **alert
//! shortcut** (1/2/3/0, routed only while an alert is shown).

use vstd::prelude::*;
use vstd::string::*;

use crate::sys_api::KeyEvent;
use crate::text::{ascii_lower_seq, str_eq, to_ascii_lowercase, trim, trim_spec};

verus! {

pub const VK_BACK: u16 = 0x08;
pub const VK_RETURN: u16 = 0x0D;
pub const VK_DELETE: u16 = 0x2E;
pub const VK_PACKET: u16 = 0xE7;

/// The target program's send shortcut (Enter by default).
#[derive(Debug, Clone, Copy, PartialEq, Eq, Structural)]
pub enum SendKey {
    Enter,
    CtrlEnter,
}

impl Default for SendKey {
    fn default() -> (k: SendKey)
        ensures
            k == SendKey::Enter,
    {
        SendKey::Enter
    }
}

/// A configuration value names Ctrl+Enter when, trimmed and ASCII-lowercased,
/// it is one of its three spellings.
pub open spec fn names_ctrl_enter(value: Seq<char>) -> bool {
    let v = ascii_lower_seq(trim_spec(value));
    v == "ctrl+enter"@ || v == "ctrl-enter"@ || v == "ctrlenter"@
}

impl SendKey {
    pub open spec fn spec_name(self) -> Seq<char> {
        match self {
            SendKey::Enter => "enter"@,
            SendKey::CtrlEnter => "ctrl+enter"@,
        }
    }

    pub open spec fn spec_code(self) -> u8 {
        match self {
            SendKey::Enter => 0,
            SendKey::CtrlEnter => 1,
        }
    }

    /// Parse a configuration value; anything that is not a Ctrl+Enter spelling means Enter.
    pub fn parse(value: &str) -> (k: SendKey)
        ensures
            k == (if names_ctrl_enter(value@) {
                SendKey::CtrlEnter
            } else {
                SendKey::Enter
            }),
    {
        let lowered = to_ascii_lowercase(trim(value));
        let l = lowered.as_str();
        if str_eq(l, "ctrl+enter") || str_eq(l, "ctrl-enter") || str_eq(l, "ctrlenter") {
            SendKey::CtrlEnter
        } else {
            SendKey::Enter
        }
    }

    pub fn as_str(self) -> (s: &'static str)
        ensures
            s@ == self.spec_name(),
    {
        match self {
            SendKey::Enter => "enter",
            SendKey::CtrlEnter => "ctrl+enter",
        }
    }

    /// The values offered to the user (parse accepts any letter case).
    pub fn options() -> (v: Vec<String>)
        ensures
            v@.len() == 2,
            v@[0]@ == "Enter"@,
            v@[1]@ == "Ctrl+Enter"@,
    {
        let mut v: Vec<String> = Vec::new();
        v.push(String::from_str("Enter"));
        v.push(String::from_str("Ctrl+Enter"));
        v
    }

    /// Byte encoding for lock-free hot reload on the hook path.
    pub fn encode(self) -> (v: u8)
        ensures
            v == self.spec_code(),
    {
        match self {
            SendKey::Enter => 0,
            SendKey::CtrlEnter => 1,
        }
    }

    /// Byte decoding; only 1 means Ctrl+Enter.
    pub fn decode(v: u8) -> (k: SendKey)
        ensures
            k == (if v == 1 {
                SendKey::CtrlEnter
            } else {
                SendKey::Enter
            }),
    {
        match v {
            1 => SendKey::CtrlEnter,
            _ => SendKey::Enter,
        }
    }
}

/// Send-key test: Return without Alt, with Ctrl exactly when the configuration is
/// Ctrl+Enter, and never with Shift (a non-send Return is a line break).
pub open spec fn spec_is_send_key(ev: KeyEvent, send_key: SendKey) -> bool {
    &&& ev.vk == VK_RETURN
    &&& !ev.alt
    &&& !ev.shift
    &&& (ev.ctrl <==> send_key == SendKey::CtrlEnter)
}

/// Whether the event is the target's send key.
pub fn is_send_key(ev: &KeyEvent, send_key: SendKey) -> (b: bool)
    ensures
        b == spec_is_send_key(*ev, send_key),
{
    if ev.vk != VK_RETURN || ev.alt {
        return false;
    }
    match send_key {
        SendKey::Enter => !ev.ctrl && !ev.shift,
        SendKey::CtrlEnter => ev.ctrl && !ev.shift,
    }
}

/// Content keys (allow-list): Backspace, Delete, IME packet, Space, digits,
/// letters (Ctrl+V included), numpad, OEM punctuation.
pub open spec fn spec_is_content_key(vk: u16) -> bool {
    ||| vk == VK_BACK
    ||| vk == VK_DELETE
    ||| vk == VK_PACKET
    ||| vk == 0x20
    ||| 0x30 <= vk <= 0x39
    ||| 0x41 <= vk <= 0x5A
    ||| 0x60 <= vk <= 0x6F
    ||| 0xBA <= vk <= 0xC0
    ||| 0xDB <= vk <= 0xDE
}

/// Whether the key changes the input box (the draft epoch advances).
pub fn is_content_key(vk: u16) -> (b: bool)
    ensures
        b == spec_is_content_key(vk),
{
    match vk {
        VK_BACK | VK_DELETE | VK_PACKET => true,
        0x20 => true,
        0x30..=0x39 => true,
        0x41..=0x5A => true,
        0x60..=0x6F => true,
        0xBA..=0xC0 => true,
        0xDB..=0xDE => true,
        _ => false,
    }
}

/// Alert action: digit 1/2/3 for the first three buttons, 0 for "don't ask again".
#[derive(Debug, Clone, Copy, PartialEq, Eq, Structural)]
pub enum AlertAction {
    /// Send anyway: arm the allow-once flag (the guard never sends by itself).
    Allow,
    /// Cancel sending.
    Cancel,
    /// Back to editing.
    Edit,
    /// Don't ask again for the current draft epoch.
    Snooze,
}

impl AlertAction {
    pub open spec fn spec_name(self) -> Seq<char> {
        match self {
            AlertAction::Allow => "allow"@,
            AlertAction::Cancel => "cancel"@,
            AlertAction::Edit => "edit"@,
            AlertAction::Snooze => "snooze"@,
        }
    }

    pub fn as_str(self) -> (s: &'static str)
        ensures
            s@ == self.spec_name(),
    {
        match self {
            AlertAction::Allow => "allow",
            AlertAction::Cancel => "cancel",
            AlertAction::Edit => "edit",
            AlertAction::Snooze => "snooze",
        }
    }

    /// Parse a name, ignoring surrounding white space and ASCII letter case.
    pub fn parse(value: &str) -> (a: Option<AlertAction>)
        ensures
            a == spec_parse_action(value@),
    {
        let lowered = to_ascii_lowercase(trim(value));
        let l = lowered.as_str();
        if str_eq(l, "allow") {
            Some(AlertAction::Allow)
        } else if str_eq(l, "cancel") {
            Some(AlertAction::Cancel)
        } else if str_eq(l, "edit") {
            Some(AlertAction::Edit)
        } else if str_eq(l, "snooze") {
            Some(AlertAction::Snooze)
        } else {
            None
        }
    }
}

pub open spec fn spec_parse_action(value: Seq<char>) -> Option<AlertAction> {
    let v = ascii_lower_seq(trim_spec(value));
    if v == "allow"@ {
        Some(AlertAction::Allow)
    } else if v == "cancel"@ {
        Some(AlertAction::Cancel)
    } else if v == "edit"@ {
        Some(AlertAction::Edit)
    } else if v == "snooze"@ {
        Some(AlertAction::Snooze)
    } else {
        None
    }
}

pub open spec fn spec_alert_shortcut(ev: KeyEvent) -> Option<AlertAction> {
    if ev.ctrl || ev.alt || ev.shift {
        None
    } else if ev.vk == 0x31 {
        Some(AlertAction::Allow)
    } else if ev.vk == 0x32 {
        Some(AlertAction::Cancel)
    } else if ev.vk == 0x33 {
        Some(AlertAction::Edit)
    } else if ev.vk == 0x30 {
        Some(AlertAction::Snooze)
    } else {
        None
    }
}

/// Digit shortcuts while an alert is shown; any modifier disqualifies the key.
pub fn alert_shortcut(ev: &KeyEvent) -> (a: Option<AlertAction>)
    ensures
        a == spec_alert_shortcut(*ev),
{
    if ev.ctrl || ev.alt || ev.shift {
        return None;
    }
    match ev.vk {
        0x31 => Some(AlertAction::Allow),
        0x32 => Some(AlertAction::Cancel),
        0x33 => Some(AlertAction::Edit),
        0x30 => Some(AlertAction::Snooze),
        _ => None,
    }
}

/// Decoding inverts encoding for every send key.
pub proof fn lemma_send_key_code_roundtrip(k: SendKey)
    ensures
        (if k.spec_code() == 1 {
            SendKey::CtrlEnter
        } else {
            SendKey::Enter
        }) == k,
{
}

/// A name with no white space at either end and no ASCII capitals is its own
/// trimmed, lowercased form.
proof fn lemma_normal_form_fixed(s: Seq<char>)
    requires
        s.len() > 0,
        !crate::text::is_white_space(s[0]),
        !crate::text::is_white_space(s.last()),
        forall|i: int| 0 <= i < s.len() ==> !('A' <= #[trigger] s[i] <= 'Z'),
    ensures
        ascii_lower_seq(trim_spec(s)) == s,
{
    assert(crate::text::trim_start_spec(s) == s);
    assert(crate::text::trim_end_spec(s) == s);
    assert(ascii_lower_seq(s) =~= s);
}

/// Parsing the name a send key prints gives the same send key back.
pub proof fn lemma_send_key_name_roundtrip(k: SendKey)
    ensures
        names_ctrl_enter(k.spec_name()) <==> k == SendKey::CtrlEnter,
{
    reveal_strlit("enter");
    reveal_strlit("ctrl+enter");
    reveal_strlit("ctrl-enter");
    reveal_strlit("ctrlenter");
    lemma_normal_form_fixed(k.spec_name());
}

/// Parsing the name an alert action prints gives the same action back.
pub proof fn lemma_alert_action_name_roundtrip(a: AlertAction)
    ensures
        spec_parse_action(a.spec_name()) == Some(a),
{
    reveal_strlit("allow");
    reveal_strlit("cancel");
    reveal_strlit("edit");
    reveal_strlit("snooze");
    lemma_normal_form_fixed(a.spec_name());
}

/// Parsing ignores ASCII letter case and surrounding white space: an
/// action's name written in any mix of upper and lower case, padded with
/// white space on either side, parses to that action.
pub proof fn lemma_alert_action_parse_ignores_case_and_padding(
    a: AlertAction,
    pre: Seq<char>,
    word: Seq<char>,
    post: Seq<char>,
)
    requires
        crate::text::is_blank(pre),
        crate::text::is_blank(post),
        ascii_lower_seq(word) == a.spec_name(),
    ensures
        spec_parse_action(pre + word + post) == Some(a),
{
    reveal_strlit("allow");
    reveal_strlit("cancel");
    reveal_strlit("edit");
    reveal_strlit("snooze");
    let n = a.spec_name();
    assert(word.len() == n.len());
    assert(ascii_lower_seq(word)[0] == n[0]);
    assert(ascii_lower_seq(word)[word.len() - 1] == n[n.len() - 1]);
    assert(ascii_lower_seq(word)[0] == crate::text::ascii_lower(word[0]));
    assert(ascii_lower_seq(word)[word.len() - 1] == crate::text::ascii_lower(word.last()));
    assert(!crate::text::is_white_space(n[0]) && !crate::text::is_white_space(n[n.len() - 1]))
        by {
        match a {
            AlertAction::Allow => {
                assert(n[0] == 'a' && n[n.len() - 1] == 'w');
            },
            AlertAction::Cancel => {
                assert(n[0] == 'c' && n[n.len() - 1] == 'l');
            },
            AlertAction::Edit => {
                assert(n[0] == 'e' && n[n.len() - 1] == 't');
            },
            AlertAction::Snooze => {
                assert(n[0] == 's' && n[n.len() - 1] == 'e');
            },
        }
    }
    crate::text::lemma_lower_keeps_white(word[0]);
    crate::text::lemma_lower_keeps_white(word.last());
    crate::text::lemma_trim_padded(pre, word, post);
    lemma_alert_action_name_roundtrip(a);
    lemma_normal_form_fixed(n);
}

/// A send key is never a content key: sending does not advance the draft epoch.
pub proof fn lemma_send_key_is_not_content(ev: KeyEvent, k: SendKey)
    requires
        spec_is_send_key(ev, k),
    ensures
        !spec_is_content_key(ev.vk),
{
}

/// Every key that types a Latin letter or a digit changes the draft: the
/// virtual-key code of a letter is its upper-case ASCII code (`V`, pasted
/// with Ctrl, included), that of a digit its ASCII code.
pub proof fn lemma_letters_and_digits_are_content_keys(c: char)
    requires
        ('A' <= c <= 'Z') || ('a' <= c <= 'z') || ('0' <= c <= '9'),
    ensures
        ('A' <= c <= 'Z') ==> spec_is_content_key(c as u16),
        ('a' <= c <= 'z') ==> spec_is_content_key(((c as u32) - 32) as u16),
        ('0' <= c <= '9') ==> spec_is_content_key(c as u16),
        spec_is_content_key(0x56),
{
}

/// Editing keys change the draft too: Backspace, Delete, Space and the IME
/// packet, the whole numeric keypad and the OEM punctuation keys
/// (semicolon, equals, comma, minus, period, slash, back-tick, brackets,
/// backslash, quote).
pub proof fn lemma_editing_keys_are_content_keys(vk: u16)
    requires
        vk == 0x08 || vk == 0x2E || vk == 0x20 || vk == 0xE7 || (0x60 <= vk <= 0x6F) || (0xBA
            <= vk <= 0xC0) || (0xDB <= vk <= 0xDE),
    ensures
        spec_is_content_key(vk),
{
}

/// Keys that do not touch the text never advance the draft epoch: the
/// arrows, Home/End/Page keys and the other navigation keys from 0x21 to
/// 0x2D, the function keys F1–F24, Enter, Tab, Escape and the bare modifiers.
pub proof fn lemma_navigation_keys_are_not_content_keys(vk: u16)
    requires
        (0x21 <= vk <= 0x2D) || (0x70 <= vk <= 0x87) || vk == 0x0D || vk == 0x09 || vk == 0x1B
            || (0x10 <= vk <= 0x12),
    ensures
        !spec_is_content_key(vk),
{
}

/// Alert shortcuts are digit keys, hence content keys outside an alert.
pub proof fn lemma_shortcuts_are_digits(ev: KeyEvent)
    requires
        spec_alert_shortcut(ev) is Some,
    ensures
        0x30 <= ev.vk <= 0x33,
        spec_is_content_key(ev.vk),
{
}

} // verus!
