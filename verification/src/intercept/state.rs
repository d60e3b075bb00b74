//! Guard state machine: Active / Suspended / Paused / Cooldown.
//!
//! `transition` is a pure table from (state, event) to the next state.
//! `Suspended` and `Active` follow the foreground; `Paused` (user pause) and
//! `Cooldown` (alert on screen) are explicit states that foreground events do
//! not leave, except that losing the foreground ends a cooldown.

use vstd::prelude::*;

verus! {

/// Guard state.
#[derive(Debug, Clone, Copy, PartialEq, Eq, Structural)]
pub enum GuardState {
    /// Target in foreground: the hook decides, the pipeline runs.
    Active,
    /// Target not in foreground: the hook passes everything.
    Suspended,
    /// Paused by the user: behaves as if not installed.
    Paused,
    /// Alert on screen: digit keys are routed, send keys swallowed without a new alert.
    Cooldown,
}

impl GuardState {
    pub open spec fn spec_name(self) -> Seq<char> {
        match self {
            GuardState::Active => seq!['a', 'c', 't', 'i', 'v', 'e'],
            GuardState::Suspended => seq!['s', 'u', 's', 'p', 'e', 'n', 'd', 'e', 'd'],
            GuardState::Paused => seq!['p', 'a', 'u', 's', 'e', 'd'],
            GuardState::Cooldown => seq!['c', 'o', 'o', 'l', 'd', 'o', 'w', 'n'],
        }
    }

    pub open spec fn spec_code(self) -> u8 {
        match self {
            GuardState::Active => 0,
            GuardState::Suspended => 1,
            GuardState::Paused => 2,
            GuardState::Cooldown => 3,
        }
    }

    pub fn as_str(self) -> (s: &'static str)
        ensures
            s@ == self.spec_name(),
    {
        match self {
            GuardState::Active => {
                proof {
                    reveal_strlit("active");
                }
                "active"
            },
            GuardState::Suspended => {
                proof {
                    reveal_strlit("suspended");
                }
                "suspended"
            },
            GuardState::Paused => {
                proof {
                    reveal_strlit("paused");
                }
                "paused"
            },
            GuardState::Cooldown => {
                proof {
                    reveal_strlit("cooldown");
                }
                "cooldown"
            },
        }
    }

    /// Whether the hook must pass every key without deciding.
    pub fn passes_everything(self) -> (b: bool)
        ensures
            b <==> (self == GuardState::Suspended || self == GuardState::Paused),
    {
        match self {
            GuardState::Suspended | GuardState::Paused => true,
            _ => false,
        }
    }

    /// Byte encoding used for atomic storage and reporting.
    pub fn to_u8(self) -> (v: u8)
        ensures
            v == self.spec_code(),
    {
        match self {
            GuardState::Active => 0,
            GuardState::Suspended => 1,
            GuardState::Paused => 2,
            GuardState::Cooldown => 3,
        }
    }

    /// The state a byte decodes to; every value above 2 is `Cooldown`.
    pub open spec fn spec_from_code(value: u8) -> GuardState {
        if value == 0 {
            GuardState::Active
        } else if value == 1 {
            GuardState::Suspended
        } else if value == 2 {
            GuardState::Paused
        } else {
            GuardState::Cooldown
        }
    }

    /// Byte decoding; every value above 2 decodes to `Cooldown`.
    pub fn from_u8(value: u8) -> (s: GuardState)
        ensures
            s == GuardState::spec_from_code(value),
    {
        match value {
            0 => GuardState::Active,
            1 => GuardState::Suspended,
            2 => GuardState::Paused,
            _ => GuardState::Cooldown,
        }
    }
}

/// Events that drive the state machine.
#[derive(Debug, Clone, Copy, PartialEq, Eq, Structural)]
pub enum GuardEvent {
    /// Target came back to the foreground (immediate wake-up).
    ForegroundActive,
    /// Target lost the foreground (delivered after debounce).
    ForegroundInactive,
    /// User paused the guard.
    Pause,
    /// User resumed; whether it goes back to Active depends on the foreground.
    Resume { target_active: bool },
    /// Alert is being shown (only after a successful swallow).
    AlertShown,
    /// Alert handled by the user.
    AlertResolved,
    /// Alert countdown expired.
    AlertTimeout,
}

/// The transition table, written case by case.
pub open spec fn spec_transition(from: GuardState, event: GuardEvent) -> GuardState {
    match from {
        GuardState::Active => match event {
            GuardEvent::ForegroundInactive => GuardState::Suspended,
            GuardEvent::Pause => GuardState::Paused,
            GuardEvent::AlertShown => GuardState::Cooldown,
            _ => GuardState::Active,
        },
        GuardState::Suspended => match event {
            GuardEvent::ForegroundActive => GuardState::Active,
            GuardEvent::Pause => GuardState::Paused,
            _ => GuardState::Suspended,
        },
        GuardState::Paused => match event {
            GuardEvent::Resume { target_active } => if target_active {
                GuardState::Active
            } else {
                GuardState::Suspended
            },
            _ => GuardState::Paused,
        },
        GuardState::Cooldown => match event {
            GuardEvent::AlertResolved | GuardEvent::AlertTimeout => GuardState::Active,
            GuardEvent::ForegroundInactive => GuardState::Suspended,
            GuardEvent::Pause => GuardState::Paused,
            _ => GuardState::Cooldown,
        },
    }
}

/// Transition function `(state, event) -> next state`.
pub fn transition(from: GuardState, event: GuardEvent) -> (to: GuardState)
    ensures
        to == spec_transition(from, event),
{
    match (from, event) {
        (GuardState::Active, GuardEvent::ForegroundInactive) => GuardState::Suspended,
        (GuardState::Active, GuardEvent::ForegroundActive) => GuardState::Active,
        (GuardState::Active, GuardEvent::Pause) => GuardState::Paused,
        (GuardState::Active, GuardEvent::Resume { .. }) => GuardState::Active,
        (GuardState::Active, GuardEvent::AlertShown) => GuardState::Cooldown,
        (GuardState::Active, GuardEvent::AlertResolved) => GuardState::Active,
        (GuardState::Active, GuardEvent::AlertTimeout) => GuardState::Active,
        (GuardState::Suspended, GuardEvent::ForegroundActive) => GuardState::Active,
        (GuardState::Suspended, GuardEvent::Pause) => GuardState::Paused,
        (GuardState::Suspended, _) => GuardState::Suspended,
        (GuardState::Paused, GuardEvent::Resume { target_active: true }) => GuardState::Active,
        (GuardState::Paused, GuardEvent::Resume { target_active: false }) => GuardState::Suspended,
        (GuardState::Paused, _) => GuardState::Paused,
        (GuardState::Cooldown, GuardEvent::AlertResolved) => GuardState::Active,
        (GuardState::Cooldown, GuardEvent::AlertTimeout) => GuardState::Active,
        (GuardState::Cooldown, GuardEvent::AlertShown) => GuardState::Cooldown,
        (GuardState::Cooldown, GuardEvent::ForegroundActive) => GuardState::Cooldown,
        (GuardState::Cooldown, GuardEvent::ForegroundInactive) => GuardState::Suspended,
        (GuardState::Cooldown, GuardEvent::Pause) => GuardState::Paused,
        (GuardState::Cooldown, GuardEvent::Resume { .. }) => GuardState::Cooldown,
    }
}

/// Decoding inverts encoding: every state survives a round trip through its byte code.
pub proof fn lemma_code_roundtrip(s: GuardState)
    ensures
        GuardState::spec_from_code(s.spec_code()) == s,
{
}

/// A pause is sticky: from `Paused`, only a `Resume` event leaves the state.
pub proof fn lemma_paused_left_only_by_resume(e: GuardEvent)
    requires
        !(e is Resume),
    ensures
        spec_transition(GuardState::Paused, e) == GuardState::Paused,
{
}

/// `Pause` reaches `Paused` from every state.
pub proof fn lemma_pause_always_pauses(s: GuardState)
    ensures
        spec_transition(s, GuardEvent::Pause) == GuardState::Paused,
{
}

/// The only way into `Cooldown` is an `AlertShown` from `Active`
/// (or staying in `Cooldown`): no other state can start an alert.
pub proof fn lemma_cooldown_entered_only_by_alert(s: GuardState, e: GuardEvent)
    requires
        s != GuardState::Cooldown,
        spec_transition(s, e) == GuardState::Cooldown,
    ensures
        s == GuardState::Active,
        e == GuardEvent::AlertShown,
{
}

/// Every alert path out of `Cooldown` (handled or timed out) returns to `Active`.
pub proof fn lemma_alert_end_returns_to_active(e: GuardEvent)
    requires
        e == GuardEvent::AlertResolved || e == GuardEvent::AlertTimeout,
    ensures
        spec_transition(GuardState::Cooldown, e) == GuardState::Active,
{
}

/// Losing the foreground never leaves the guard deciding: the result passes everything
/// unless the guard was already paused (which also passes everything).
pub proof fn lemma_foreground_loss_stops_deciding(s: GuardState)
    ensures
        spec_transition(s, GuardEvent::ForegroundInactive) == GuardState::Suspended
            || spec_transition(s, GuardEvent::ForegroundInactive) == GuardState::Paused,
{
}

/// Foreground events never change a paused guard.
pub proof fn lemma_paused_ignores_foreground(target_in_front: bool)
    ensures
        spec_transition(
            GuardState::Paused,
            if target_in_front {
                GuardEvent::ForegroundActive
            } else {
                GuardEvent::ForegroundInactive
            },
        ) == GuardState::Paused,
{
}

} // verus!
