use dc_pipeline::intercept::keys::{VK_BACK, VK_DELETE, VK_PACKET, VK_RETURN};
use dc_pipeline::intercept::state;
use dc_pipeline::intercept::tracker::{DraftTracker, ForegroundTracker};
use dc_pipeline::intercept::{
    alert_shortcut, is_content_key, is_send_key, transition, AlertAction, AlertBusError,
    GuardEvent, GuardState, SendKey,
};
use dc_pipeline::intercept::GuardEvent as E;
use dc_pipeline::intercept::GuardState as S;
use dc_pipeline::sys_api::KeyEvent;

const VK_A: u16 = 0x41;
const VK_LEFT: u16 = 0x25;
const VK_F1: u16 = 0x70;

fn key(vk: u16, ctrl: bool, alt: bool, shift: bool) -> KeyEvent {
    KeyEvent {
        vk,
        scan_code: 0,
        is_key_down: true,
        is_injected: false,
        ctrl,
        alt,
        shift,
    }
}

#[test]
fn ut_int_01_state_machine_full_transition_table() {
    const EVENTS: [E; 8] = [
        E::ForegroundActive,
        E::ForegroundInactive,
        E::Pause,
        E::Resume {
            target_active: true,
        },
        E::Resume {
            target_active: false,
        },
        E::AlertShown,
        E::AlertResolved,
        E::AlertTimeout,
    ];

    let expected: [[S; 8]; 4] = [
        [
            S::Active,
            S::Suspended,
            S::Paused,
            S::Active,
            S::Active,
            S::Cooldown,
            S::Active,
            S::Active,
        ],
        [
            S::Active,
            S::Suspended,
            S::Paused,
            S::Suspended,
            S::Suspended,
            S::Suspended,
            S::Suspended,
            S::Suspended,
        ],
        [
            S::Paused,
            S::Paused,
            S::Paused,
            S::Active,
            S::Suspended,
            S::Paused,
            S::Paused,
            S::Paused,
        ],
        [
            S::Cooldown,
            S::Suspended,
            S::Paused,
            S::Cooldown,
            S::Cooldown,
            S::Cooldown,
            S::Active,
            S::Active,
        ],
    ];

    for (row, from) in [S::Active, S::Suspended, S::Paused, S::Cooldown]
        .into_iter()
        .enumerate()
    {
        for (col, event) in EVENTS.into_iter().enumerate() {
            assert_eq!(
                transition(from, event),
                expected[row][col],
                "transition mismatch: {from:?} + {event:?}"
            );
        }
    }

    for s in [S::Active, S::Suspended, S::Paused, S::Cooldown] {
        assert_eq!(S::from_u8(s.to_u8()), s);
        assert!(s.as_str().chars().all(|c| c.is_ascii_lowercase()));
    }
    assert!(S::Suspended.passes_everything() && S::Paused.passes_everything());
    assert!(!S::Active.passes_everything() && !S::Cooldown.passes_everything());
}

#[test]
fn key_classification_edges() {
    assert_eq!(
        state::transition(GuardState::Active, GuardEvent::AlertShown),
        GuardState::Cooldown
    );
    for vk in [VK_LEFT, 0x26u16, 0x27, 0x28, 0x23, 0x24, 0x2D, VK_F1] {
        assert!(
            !dc_pipeline::intercept::is_content_key(vk),
            "{vk:#X} is not a content key"
        );
    }
    for vk in [
        VK_A, 0x30u16, 0x39, 0x6F, 0xBA, 0xDE, VK_BACK, VK_DELETE, 0x20,
    ] {
        assert!(
            dc_pipeline::intercept::is_content_key(vk),
            "{vk:#X} is a content key"
        );
    }
}

#[test]
fn state_codes_and_names() {
    assert_eq!(GuardState::Active.to_u8(), 0);
    assert_eq!(GuardState::Suspended.to_u8(), 1);
    assert_eq!(GuardState::Paused.to_u8(), 2);
    assert_eq!(GuardState::Cooldown.to_u8(), 3);
    assert_eq!(GuardState::from_u8(200), GuardState::Cooldown);
    assert_eq!(GuardState::Active.as_str(), "active");
    assert_eq!(GuardState::Suspended.as_str(), "suspended");
    assert_eq!(GuardState::Paused.as_str(), "paused");
    assert_eq!(GuardState::Cooldown.as_str(), "cooldown");
}

#[test]
fn pause_is_sticky_until_resume() {
    let mut s = transition(GuardState::Cooldown, GuardEvent::Pause);
    assert_eq!(s, GuardState::Paused);
    for e in [
        GuardEvent::ForegroundActive,
        GuardEvent::ForegroundInactive,
        GuardEvent::AlertShown,
        GuardEvent::AlertResolved,
        GuardEvent::AlertTimeout,
        GuardEvent::Pause,
    ] {
        s = transition(s, e);
        assert_eq!(s, GuardState::Paused);
    }
    assert_eq!(
        transition(s, GuardEvent::Resume { target_active: false }),
        GuardState::Suspended
    );
}

#[test]
fn send_key_parse_and_codes() {
    assert_eq!(SendKey::parse("Ctrl+Enter"), SendKey::CtrlEnter);
    assert_eq!(SendKey::parse("  ctrl-enter "), SendKey::CtrlEnter);
    assert_eq!(SendKey::parse("CTRLENTER"), SendKey::CtrlEnter);
    assert_eq!(SendKey::parse("enter"), SendKey::Enter);
    assert_eq!(SendKey::parse("shift+enter"), SendKey::Enter);
    assert_eq!(SendKey::parse(""), SendKey::Enter);
    assert_eq!(SendKey::default(), SendKey::Enter);
    for k in [SendKey::Enter, SendKey::CtrlEnter] {
        assert_eq!(SendKey::decode(k.encode()), k);
        assert_eq!(SendKey::parse(k.as_str()), k);
    }
    assert_eq!(SendKey::Enter.encode(), 0);
    assert_eq!(SendKey::CtrlEnter.encode(), 1);
    assert_eq!(SendKey::decode(7), SendKey::Enter);
    assert_eq!(SendKey::CtrlEnter.as_str(), "ctrl+enter");
    assert_eq!(
        SendKey::options(),
        vec!["Enter".to_string(), "Ctrl+Enter".to_string()]
    );
}

#[test]
fn send_key_modifiers() {
    assert!(is_send_key(&key(VK_RETURN, false, false, false), SendKey::Enter));
    assert!(!is_send_key(&key(VK_RETURN, true, false, false), SendKey::Enter));
    assert!(!is_send_key(&key(VK_RETURN, false, false, true), SendKey::Enter));
    assert!(!is_send_key(&key(VK_RETURN, false, true, false), SendKey::Enter));
    assert!(is_send_key(&key(VK_RETURN, true, false, false), SendKey::CtrlEnter));
    assert!(!is_send_key(&key(VK_RETURN, false, false, false), SendKey::CtrlEnter));
    assert!(!is_send_key(&key(VK_RETURN, true, false, true), SendKey::CtrlEnter));
    assert!(!is_send_key(&key(VK_A, false, false, false), SendKey::Enter));
}

#[test]
fn content_key_ranges() {
    assert!(is_content_key(VK_PACKET));
    assert!(is_content_key(0x5A));
    assert!(is_content_key(0x60));
    assert!(is_content_key(0xC0));
    assert!(is_content_key(0xDB));
    assert!(!is_content_key(0x7B));
    assert!(!is_content_key(0xC1));
    assert!(!is_content_key(VK_RETURN));
    assert!(!is_content_key(0x10));
}

#[test]
fn alert_shortcuts_and_names() {
    assert_eq!(alert_shortcut(&key(0x31, false, false, false)), Some(AlertAction::Allow));
    assert_eq!(alert_shortcut(&key(0x32, false, false, false)), Some(AlertAction::Cancel));
    assert_eq!(alert_shortcut(&key(0x33, false, false, false)), Some(AlertAction::Edit));
    assert_eq!(alert_shortcut(&key(0x30, false, false, false)), Some(AlertAction::Snooze));
    assert_eq!(alert_shortcut(&key(0x34, false, false, false)), None);
    assert_eq!(alert_shortcut(&key(0x31, true, false, false)), None);
    assert_eq!(alert_shortcut(&key(0x31, false, true, false)), None);
    assert_eq!(alert_shortcut(&key(0x31, false, false, true)), None);
    for a in [
        AlertAction::Allow,
        AlertAction::Cancel,
        AlertAction::Edit,
        AlertAction::Snooze,
    ] {
        assert_eq!(AlertAction::parse(a.as_str()), Some(a));
    }
    for a in [
        AlertAction::Allow,
        AlertAction::Cancel,
        AlertAction::Edit,
        AlertAction::Snooze,
    ] {
        let padded = format!("  {}  ", a.as_str().to_uppercase());
        assert_eq!(AlertAction::parse(&padded), Some(a));
        let mixed = format!("\t{}\n", a.as_str().replacen(&a.as_str()[..1], &a.as_str()[..1].to_uppercase(), 1));
        assert_eq!(AlertAction::parse(&mixed), Some(a));
    }
    assert_eq!(AlertAction::parse("sNoOzE"), Some(AlertAction::Snooze));
    assert_eq!(AlertAction::parse(" ALLOW "), Some(AlertAction::Allow));
    assert_eq!(AlertAction::parse("send"), None);
    assert_eq!(AlertAction::Snooze.as_str(), "snooze");
}

#[test]
fn draft_epoch_and_snooze() {
    let mut t = DraftTracker::new();
    assert_eq!(t.epoch(), 0);
    assert!(!t.is_snoozed());
    assert_eq!(t.bump(), 1);
    assert_eq!(t.bump(), 2);
    assert_eq!(t.epoch(), 2);
    t.snooze_current();
    assert!(t.is_snoozed());
    assert_eq!(t.bump(), 3);
    assert!(!t.is_snoozed(), "a new draft epoch ends the snooze");
    t.snooze_current();
    t.clear_snooze();
    assert!(!t.is_snoozed());
    let d = DraftTracker::default();
    assert_eq!(d.epoch(), 0);
    assert!(!d.is_snoozed());
}

#[test]
fn foreground_debounce_and_wake() {
    let mut f = ForegroundTracker::new(3_000);
    assert_eq!(f.debounce_ms(), 3_000);
    assert!(!f.evaluate(0), "starts outside the target");
    f.note(false, 10);
    assert_eq!(f.pending_suspend_at(), 0, "leaving while not target plans nothing");
    f.note(true, 100);
    assert!(f.evaluate(100));
    f.note(false, 1_000);
    assert_eq!(f.pending_suspend_at(), 4_000);
    assert!(f.evaluate(3_999), "inside the debounce window");
    assert!(!f.evaluate(4_000), "suspended once the window is over");
    assert_eq!(f.pending_suspend_at(), 0);
    assert!(!f.evaluate(10_000));
    f.note(true, 10_000);
    assert!(f.evaluate(10_000), "coming back wakes at once");
    f.note(false, 11_000);
    f.note(true, 12_000);
    assert!(f.evaluate(100_000), "returning inside the window cancels the plan");
    f.suspend_now();
    assert!(!f.evaluate(100_001));
    let mut g = ForegroundTracker::new(5);
    g.note(true, 0);
    g.note(false, u64::MAX - 1);
    assert_eq!(g.pending_suspend_at(), u64::MAX, "planning saturates");
}

#[test]
fn alert_bus_error_messages() {
    assert_eq!(AlertBusError::Full.message(), "alert queue full");
    assert_eq!(AlertBusError::Disconnected.message(), "alert channel closed");
}
